//! The creature's poses, the direction classifier and the animation table.

use crate::sprite_sheet::{millis, Animation, FrameRef, SheetView, SpriteSheet};
use crate::steering::{square, REACH};
use std::time::Duration;
use vstd::prelude::*;

verus! {

/// What the creature is doing. Two states are equal when they are the same
/// variant with the same payload, whatever led to them.
#[derive(Debug, Clone, Copy, PartialEq, Eq, Structural)]
pub enum AnimState {
    /// At rest, in one of the ways of resting.
    Idle(AnimStateIdle),
    /// Startled, about to run.
    Alert,
    /// Running in a direction.
    Moving(AnimStateMoving),
}

/// The ways of resting.
#[derive(Debug, Clone, Copy, PartialEq, Eq, Structural)]
pub enum AnimStateIdle {
    /// Sitting still.
    Idle,
    /// Scratching something.
    Scratch(AnimStateScratch),
    /// Yawning, about to fall asleep.
    Tired,
    /// Asleep.
    Sleeping,
}

/// What a grooming creature scratches: itself, or the wall at the top, the
/// bottom, the right or the left of the screen.
#[derive(Debug, Clone, Copy, PartialEq, Eq, Structural)]
pub enum AnimStateScratch {
    ScratchSelf,
    ScratchWallN,
    ScratchWallS,
    ScratchWallE,
    ScratchWallW,
}

/// The eight compass directions, with north at the top of the screen.
#[derive(Debug, Clone, Copy, PartialEq, Eq, Structural)]
pub enum AnimStateMoving {
    N,
    NE,
    E,
    SE,
    S,
    SW,
    W,
    NW,
}

/// The pastimes between which an idle creature chooses at random.
#[derive(Debug, Clone, Copy, PartialEq, Eq, Structural)]
pub enum IdleChoice {
    /// Scratch: a wall that it touches and faces, or else itself.
    Scratch,
    /// Get tired, and then fall asleep.
    Tired,
}

/// Whether a component `c` of a vector, whose other component is `o`, is at
/// least half of the vector's length.
///
/// `2 * |c| >= sqrt(c * c + o * o)` squares to the integer test below, so the
/// classification is exact for every integer vector.
pub open spec fn dominant(c: int, o: int) -> bool {
    c != 0 && 4 * (c * c) >= c * c + o * o
}

/// The sign of a component once small components count as zero: `1` or `-1`
/// where the normalised component reaches `0.5` in magnitude, else `0`.
pub open spec fn axis_sign(c: int, o: int) -> int {
    if c > 0 && dominant(c, o) {
        1
    } else if c < 0 && dominant(c, o) {
        -1
    } else {
        0
    }
}

/// The compass direction of the vector `(x, y)`, with north at negative `y`.
/// The zero vector, which has no direction, counts as east.
pub open spec fn direction_of(x: int, y: int) -> AnimStateMoving {
    let sx = axis_sign(x, y);
    let sy = axis_sign(y, x);
    if sx == 0 && sy < 0 {
        AnimStateMoving::N
    } else if sx > 0 && sy < 0 {
        AnimStateMoving::NE
    } else if sx > 0 && sy == 0 {
        AnimStateMoving::E
    } else if sx > 0 && sy > 0 {
        AnimStateMoving::SE
    } else if sx == 0 && sy > 0 {
        AnimStateMoving::S
    } else if sx < 0 && sy > 0 {
        AnimStateMoving::SW
    } else if sx < 0 && sy == 0 {
        AnimStateMoving::W
    } else if sx < 0 && sy < 0 {
        AnimStateMoving::NW
    } else {
        AnimStateMoving::E
    }
}

/// Computes `axis_sign` for a component of a target vector.
pub(crate) fn sign_of_axis(c: i64, o: i64) -> (s: i8)
    requires
        -REACH <= c <= REACH,
        -REACH <= o <= REACH,
    ensures
        s == axis_sign(c as int, o as int),
{
    let cc: i128 = square(c);
    let oo: i128 = square(o);
    let strong: bool = c != 0 && 4 * cc >= cc + oo;
    if c > 0 && strong {
        1
    } else if c < 0 && strong {
        -1
    } else {
        0
    }
}

/// Classifies a target vector.
pub(crate) fn classify(v: (i64, i64)) -> (d: AnimStateMoving)
    requires
        -REACH <= v.0 <= REACH,
        -REACH <= v.1 <= REACH,
    ensures
        d == direction_of(v.0 as int, v.1 as int),
{
    let sx: i8 = sign_of_axis(v.0, v.1);
    let sy: i8 = sign_of_axis(v.1, v.0);
    if sx == 0 && sy < 0 {
        AnimStateMoving::N
    } else if sx > 0 && sy < 0 {
        AnimStateMoving::NE
    } else if sx > 0 && sy == 0 {
        AnimStateMoving::E
    } else if sx > 0 && sy > 0 {
        AnimStateMoving::SE
    } else if sx == 0 && sy > 0 {
        AnimStateMoving::S
    } else if sx < 0 && sy > 0 {
        AnimStateMoving::SW
    } else if sx < 0 && sy == 0 {
        AnimStateMoving::W
    } else if sx < 0 && sy < 0 {
        AnimStateMoving::NW
    } else {
        AnimStateMoving::E
    }
}

impl AnimStateMoving {
    /// The compass direction in which `v` points.
    pub fn from_vector(v: (i32, i32)) -> (d: Self)
        ensures
            d == direction_of(v.0 as int, v.1 as int),
    {
        classify((v.0 as i64, v.1 as i64))
    }
}

/// The cells that show `state`, in the order in which they are played.
pub open spec fn frames_of(state: AnimState) -> Seq<FrameRef> {
    match state {
        AnimState::Idle(AnimStateIdle::Idle) => seq![FrameRef(3, 3)],
        AnimState::Idle(AnimStateIdle::Scratch(AnimStateScratch::ScratchSelf)) => seq![
            FrameRef(5, 0),
            FrameRef(6, 0),
            FrameRef(7, 0),
        ],
        AnimState::Idle(AnimStateIdle::Scratch(AnimStateScratch::ScratchWallN)) => seq![
            FrameRef(0, 0),
            FrameRef(0, 1),
        ],
        AnimState::Idle(AnimStateIdle::Scratch(AnimStateScratch::ScratchWallS)) => seq![
            FrameRef(7, 1),
            FrameRef(6, 2),
        ],
        AnimState::Idle(AnimStateIdle::Scratch(AnimStateScratch::ScratchWallE)) => seq![
            FrameRef(2, 2),
            FrameRef(2, 3),
        ],
        AnimState::Idle(AnimStateIdle::Scratch(AnimStateScratch::ScratchWallW)) => seq![
            FrameRef(4, 0),
            FrameRef(4, 1),
        ],
        AnimState::Idle(AnimStateIdle::Tired) => seq![FrameRef(3, 2)],
        AnimState::Idle(AnimStateIdle::Sleeping) => seq![FrameRef(2, 0), FrameRef(2, 1)],
        AnimState::Alert => seq![FrameRef(7, 3)],
        AnimState::Moving(AnimStateMoving::N) => seq![FrameRef(1, 2), FrameRef(1, 3)],
        AnimState::Moving(AnimStateMoving::NE) => seq![FrameRef(0, 2), FrameRef(0, 3)],
        AnimState::Moving(AnimStateMoving::E) => seq![FrameRef(3, 0), FrameRef(3, 1)],
        AnimState::Moving(AnimStateMoving::SE) => seq![FrameRef(5, 1), FrameRef(5, 2)],
        AnimState::Moving(AnimStateMoving::S) => seq![FrameRef(6, 3), FrameRef(7, 2)],
        AnimState::Moving(AnimStateMoving::SW) => seq![FrameRef(5, 3), FrameRef(6, 1)],
        AnimState::Moving(AnimStateMoving::W) => seq![FrameRef(4, 2), FrameRef(4, 3)],
        AnimState::Moving(AnimStateMoving::NW) => seq![FrameRef(1, 0), FrameRef(1, 1)],
    }
}

/// How long each cell of `state` stays on screen, in milliseconds.
pub open spec fn interval_millis(state: AnimState) -> u64 {
    if state == AnimState::Idle(AnimStateIdle::Sleeping) {
        400
    } else {
        100
    }
}

/// The animation that shows `state`.
pub fn get_animation(state: AnimState) -> (a: Animation)
    ensures
        a.frames@ == frames_of(state),
        a.frames@.len() > 0,
        a.interval == millis(interval_millis(state)),
{
    match state {
        AnimState::Idle(AnimStateIdle::Idle) => Animation {
            frames: &[FrameRef(3, 3)],
            interval: Duration::from_millis(100),
        },
        AnimState::Idle(AnimStateIdle::Scratch(AnimStateScratch::ScratchSelf)) => Animation {
            frames: &[FrameRef(5, 0), FrameRef(6, 0), FrameRef(7, 0)],
            interval: Duration::from_millis(100),
        },
        AnimState::Idle(AnimStateIdle::Scratch(AnimStateScratch::ScratchWallN)) => Animation {
            frames: &[FrameRef(0, 0), FrameRef(0, 1)],
            interval: Duration::from_millis(100),
        },
        AnimState::Idle(AnimStateIdle::Scratch(AnimStateScratch::ScratchWallS)) => Animation {
            frames: &[FrameRef(7, 1), FrameRef(6, 2)],
            interval: Duration::from_millis(100),
        },
        AnimState::Idle(AnimStateIdle::Scratch(AnimStateScratch::ScratchWallE)) => Animation {
            frames: &[FrameRef(2, 2), FrameRef(2, 3)],
            interval: Duration::from_millis(100),
        },
        AnimState::Idle(AnimStateIdle::Scratch(AnimStateScratch::ScratchWallW)) => Animation {
            frames: &[FrameRef(4, 0), FrameRef(4, 1)],
            interval: Duration::from_millis(100),
        },
        AnimState::Idle(AnimStateIdle::Tired) => Animation {
            frames: &[FrameRef(3, 2)],
            interval: Duration::from_millis(100),
        },
        AnimState::Idle(AnimStateIdle::Sleeping) => Animation {
            frames: &[FrameRef(2, 0), FrameRef(2, 1)],
            interval: Duration::from_millis(400),
        },
        AnimState::Alert => Animation {
            frames: &[FrameRef(7, 3)],
            interval: Duration::from_millis(100),
        },
        AnimState::Moving(AnimStateMoving::N) => Animation {
            frames: &[FrameRef(1, 2), FrameRef(1, 3)],
            interval: Duration::from_millis(100),
        },
        AnimState::Moving(AnimStateMoving::NE) => Animation {
            frames: &[FrameRef(0, 2), FrameRef(0, 3)],
            interval: Duration::from_millis(100),
        },
        AnimState::Moving(AnimStateMoving::E) => Animation {
            frames: &[FrameRef(3, 0), FrameRef(3, 1)],
            interval: Duration::from_millis(100),
        },
        AnimState::Moving(AnimStateMoving::SE) => Animation {
            frames: &[FrameRef(5, 1), FrameRef(5, 2)],
            interval: Duration::from_millis(100),
        },
        AnimState::Moving(AnimStateMoving::S) => Animation {
            frames: &[FrameRef(6, 3), FrameRef(7, 2)],
            interval: Duration::from_millis(100),
        },
        AnimState::Moving(AnimStateMoving::SW) => Animation {
            frames: &[FrameRef(5, 3), FrameRef(6, 1)],
            interval: Duration::from_millis(100),
        },
        AnimState::Moving(AnimStateMoving::W) => Animation {
            frames: &[FrameRef(4, 2), FrameRef(4, 3)],
            interval: Duration::from_millis(100),
        },
        AnimState::Moving(AnimStateMoving::NW) => Animation {
            frames: &[FrameRef(1, 0), FrameRef(1, 1)],
            interval: Duration::from_millis(100),
        },
    }
}

/// Whether `sheet` holds every cell that the animation table names.
pub open spec fn shows_every_state(sheet: SheetView) -> bool {
    forall|state: AnimState, i: int|
        0 <= i < frames_of(state).len() ==> sheet.contains(#[trigger] frames_of(state)[i])
}

/// The animation table names no cell right of column 7 or below row 3.
pub proof fn lemma_table_is_eight_by_four(state: AnimState, i: int)
    requires
        0 <= i < frames_of(state).len(),
    ensures
        frames_of(state)[i].0 <= 7,
        frames_of(state)[i].1 <= 3,
{
}

/// A sheet that holds a cell holds every cell above it and left of it.
pub proof fn lemma_contains_is_monotonic(sheet: SheetView, inner: FrameRef, outer: FrameRef)
    requires
        sheet.contains(outer),
        inner.0 <= outer.0,
        inner.1 <= outer.1,
    ensures
        sheet.contains(inner),
{
    assert((inner.0 + 1) * sheet.cell.0 <= (outer.0 + 1) * sheet.cell.0) by (nonlinear_arith)
        requires
            0 <= inner.0 <= outer.0,
            0 <= sheet.cell.0,
    ;
    assert((inner.1 + 1) * sheet.cell.1 <= (outer.1 + 1) * sheet.cell.1) by (nonlinear_arith)
        requires
            0 <= inner.1 <= outer.1,
            0 <= sheet.cell.1,
    ;
}

/// Tests whether `sheet` holds every cell that the animation table names.
pub fn sheet_shows_every_state(sheet: &SpriteSheet) -> (b: bool)
    ensures
        b == shows_every_state(sheet@),
{
    let corner: FrameRef = FrameRef(7, 3);
    let b: bool = sheet.has_frame(corner);
    proof {
        if b {
            assert forall|state: AnimState, i: int|
                0 <= i < frames_of(state).len() implies sheet@.contains(
                #[trigger] frames_of(state)[i],
            ) by {
                lemma_table_is_eight_by_four(state, i);
                lemma_contains_is_monotonic(sheet@, frames_of(state)[i], corner);
            }
        } else {
            assert(frames_of(AnimState::Alert)[0] == corner);
        }
    }
    b
}

/// Every vector has a direction, and every direction has a vector: the
/// classifier leaves none of the eight out. The only vector in which neither
/// component is dominant is the zero vector, which counts as east.
pub proof fn lemma_directions_are_covered(x: int, y: int)
    ensures
        axis_sign(x, y) == 0 && axis_sign(y, x) == 0 <==> x == 0 && y == 0,
        direction_of(0, 0) == AnimStateMoving::E,
        x > 0 ==> direction_of(0, -x) == AnimStateMoving::N,
        x > 0 ==> direction_of(x, -x) == AnimStateMoving::NE,
        x > 0 ==> direction_of(x, 0) == AnimStateMoving::E,
        x > 0 ==> direction_of(x, x) == AnimStateMoving::SE,
        x > 0 ==> direction_of(0, x) == AnimStateMoving::S,
        x > 0 ==> direction_of(-x, x) == AnimStateMoving::SW,
        x > 0 ==> direction_of(-x, 0) == AnimStateMoving::W,
        x > 0 ==> direction_of(-x, -x) == AnimStateMoving::NW,
{
    assert(x != 0 ==> x * x > 0) by (nonlinear_arith);
    assert(y != 0 ==> y * y > 0) by (nonlinear_arith);
    assert((-x) * (-x) == x * x) by (nonlinear_arith);
    assert(0 * 0 == 0);
}

} // verus!
