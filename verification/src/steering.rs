//! Where the creature looks, which wall it faces and how far it moves in a
//! tick. Everything here is exact integer arithmetic on pixel coordinates.

use crate::states::{direction_of, AnimStateMoving, AnimStateScratch};
use vstd::prelude::*;

verus! {

/// How many screen pixels one pixel of the sprite artwork covers.
pub const SCALE: u32 = 2;

/// The length of a full step, in pixels per tick.
pub const SPEED: u32 = 10 * SCALE;

/// The creature follows a target that is farther away than this.
pub const FOLLOW_DISTANCE: u32 = 60 * SCALE;

/// No component of a target vector built from 32-bit coordinates leaves
/// `-REACH ..= REACH`.
pub const REACH: i64 = 0x4_0000_0000;

/// The vector from the creature's centre to the point it attends to, which
/// is the pointer shifted by `offset`. `cat` is the top left corner of the
/// creature and `size` its width and height.
pub open spec fn target_vector(
    size: (u32, u32),
    cat: (i32, i32),
    mouse: (i32, i32),
    offset: (i32, i32),
) -> (int, int) {
    (
        mouse.0 + offset.0 - (cat.0 + size.0 as int / 2),
        mouse.1 + offset.1 - (cat.1 + size.1 as int / 2),
    )
}

/// The dot product of `v` with the unit vector that points out of the screen
/// through `wall`. Scratching itself, the creature faces no wall.
pub open spec fn projection(wall: AnimStateScratch, v: (int, int)) -> int {
    match wall {
        AnimStateScratch::ScratchWallN => -v.1,
        AnimStateScratch::ScratchWallE => v.0,
        AnimStateScratch::ScratchWallS => v.1,
        AnimStateScratch::ScratchWallW => -v.0,
        AnimStateScratch::ScratchSelf => 0,
    }
}

/// The place of a wall in the order north, east, south, west.
pub open spec fn wall_order(wall: AnimStateScratch) -> int {
    match wall {
        AnimStateScratch::ScratchWallN => 0,
        AnimStateScratch::ScratchWallE => 1,
        AnimStateScratch::ScratchWallS => 2,
        AnimStateScratch::ScratchWallW => 3,
        AnimStateScratch::ScratchSelf => -1,
    }
}

/// Whether a creature of `size` at `cat` touches `wall` of a screen of size
/// `monitor`.
pub open spec fn touching(
    wall: AnimStateScratch,
    size: (u32, u32),
    cat: (i32, i32),
    monitor: (i32, i32),
) -> bool {
    match wall {
        AnimStateScratch::ScratchWallN => cat.1 <= 0,
        AnimStateScratch::ScratchWallE => cat.0 >= monitor.0 - size.0,
        AnimStateScratch::ScratchWallS => cat.1 >= monitor.1 - size.1,
        AnimStateScratch::ScratchWallW => cat.0 <= 0,
        AnimStateScratch::ScratchSelf => false,
    }
}

/// The wall onto which `v` projects farthest. Among walls with the same
/// projection the later one in the order north, east, south, west is taken.
pub open spec fn facing_wall(v: (int, int)) -> AnimStateScratch {
    let north = -v.1;
    let east = v.0;
    let south = v.1;
    let west = -v.0;
    if west >= north && west >= east && west >= south {
        AnimStateScratch::ScratchWallW
    } else if south >= north && south >= east {
        AnimStateScratch::ScratchWallS
    } else if east >= north {
        AnimStateScratch::ScratchWallE
    } else {
        AnimStateScratch::ScratchWallN
    }
}

/// What the creature scratches when it grooms: the wall it faces if it
/// touches that wall, otherwise itself.
pub open spec fn scratch_target_of(
    size: (u32, u32),
    cat: (i32, i32),
    monitor: (i32, i32),
    v: (int, int),
) -> AnimStateScratch {
    let wall = facing_wall(v);
    if touching(wall, size, cat, monitor) {
        wall
    } else {
        AnimStateScratch::ScratchSelf
    }
}

/// Whether the end of `v` is farther away than the follow distance.
pub open spec fn far(v: (int, int)) -> bool {
    v.0 * v.0 + v.1 * v.1 > FOLLOW_DISTANCE * FOLLOW_DISTANCE
}

/// Whether the creature should move: its target is far away and it is not
/// pinned against the wall it faces.
pub open spec fn active(
    size: (u32, u32),
    cat: (i32, i32),
    monitor: (i32, i32),
    v: (int, int),
) -> bool {
    far(v) && !touching(facing_wall(v), size, cat, monitor)
}

/// Whether `k` is `SPEED * |c| / sqrt(c * c + o * o)` rounded down: the
/// length, in whole pixels, of the part along `c` of a step of length `SPEED`
/// in the direction of `(c, o)`. Both bounds are squared to stay in integers.
pub open spec fn is_stride(k: int, c: int, o: int) -> bool {
    &&& 0 <= k
    &&& k * k * (c * c + o * o) <= SPEED * SPEED * (c * c)
    &&& SPEED * SPEED * (c * c) < (k + 1) * (k + 1) * (c * c + o * o)
}

/// The length of a full step's part along the component `c` of `(c, o)`.
pub open spec fn stride(c: int, o: int) -> int {
    if c == 0 {
        0
    } else {
        choose|k: int| is_stride(k, c, o)
    }
}

/// The part along `c` of the step towards the end of `(c, o)`: a full step's
/// part, cut down to `c` itself where it would overshoot.
pub open spec fn step_component(c: int, o: int) -> int {
    let k = stride(c, o);
    if k > vstd::math::abs(c) {
        c
    } else if c < 0 {
        -k
    } else {
        k
    }
}

/// The step towards the end of `v`.
pub open spec fn step_of(v: (int, int)) -> (int, int) {
    (step_component(v.0, v.1), step_component(v.1, v.0))
}

/// `x` moved into `lo ..= hi`.
pub open spec fn clamped(x: int, lo: int, hi: int) -> int {
    if x < lo {
        lo
    } else if x > hi {
        hi
    } else {
        x
    }
}

/// The facing wall has the greatest projection of the four walls, and among
/// walls that share it the facing wall comes last in the order north, east,
/// south, west.
pub proof fn lemma_facing_wall_is_greatest(v: (int, int), other: AnimStateScratch)
    requires
        other != AnimStateScratch::ScratchSelf,
    ensures
        facing_wall(v) != AnimStateScratch::ScratchSelf,
        projection(other, v) <= projection(facing_wall(v), v),
        projection(other, v) == projection(facing_wall(v), v) ==> wall_order(other) <= wall_order(
            facing_wall(v),
        ),
{
}

/// A vector has one stride only.
pub proof fn lemma_stride_unique(k1: int, k2: int, c: int, o: int)
    requires
        is_stride(k1, c, o),
        is_stride(k2, c, o),
    ensures
        k1 == k2,
{
    let n = c * c + o * o;
    let t = SPEED * SPEED * (c * c);
    assert(n >= 0) by (nonlinear_arith)
        requires
            n == c * c + o * o,
    ;
    if k1 < k2 {
        assert((k1 + 1) * (k1 + 1) * n <= k2 * k2 * n) by (nonlinear_arith)
            requires
                0 <= k1 + 1 <= k2,
                n >= 0,
        ;
    } else if k2 < k1 {
        assert((k2 + 1) * (k2 + 1) * n <= k1 * k1 * n) by (nonlinear_arith)
            requires
                0 <= k2 + 1 <= k1,
                n >= 0,
        ;
    }
}

/// The stride is the only number that `is_stride` accepts, and it is never
/// longer than a full step.
pub proof fn lemma_stride_is(k: int, c: int, o: int)
    requires
        is_stride(k, c, o),
    ensures
        stride(c, o) == k,
        k <= SPEED,
{
    let n = c * c + o * o;
    if c == 0 {
        assert(k == 0) by (nonlinear_arith)
            requires
                0 <= k,
                k * k * n <= 0,
                0 < (k + 1) * (k + 1) * n,
        ;
    } else {
        let chosen = choose|j: int| is_stride(j, c, o);
        lemma_stride_unique(k, chosen, c, o);
        if k > SPEED {
            assert(k * k * n > SPEED * SPEED * (c * c)) by (nonlinear_arith)
                requires
                    k >= SPEED + 1,
                    SPEED == 20,
                    n == c * c + o * o,
                    c != 0,
            ;
        }
    }
}

/// A step never passes its target: on each axis it is no longer than the
/// distance that is left, and it points the same way.
pub proof fn lemma_step_no_overshoot(c: int, o: int)
    ensures
        vstd::math::abs(step_component(c, o)) <= vstd::math::abs(c),
        vstd::math::abs(step_component(c, o)) <= SPEED,
        c >= 0 ==> step_component(c, o) >= 0,
        c <= 0 ==> step_component(c, o) <= 0,
{
    if c != 0 {
        lemma_stride_exists(c, o);
    }
}

/// A creature whose target lies straight to the east runs east, a full step
/// at a time, or as far as the target where that is nearer; it does not move
/// up or down.
pub proof fn lemma_step_straight_east(x: int)
    requires
        x > 0,
    ensures
        direction_of(x, 0) == AnimStateMoving::E,
        step_of((x, 0int)) == (
            if x < SPEED {
                x
            } else {
                SPEED as int
            },
            0int,
        ),
{
    assert(x * x > 0) by (nonlinear_arith)
        requires
            x > 0,
    ;
    assert(is_stride(SPEED as int, x, 0)) by (nonlinear_arith)
        requires
            x > 0,
            SPEED == 20,
    ;
    lemma_stride_is(SPEED as int, x, 0);
}

/// Every vector with a component `c` other than zero has a stride along it.
pub proof fn lemma_stride_exists(c: int, o: int)
    requires
        c != 0,
    ensures
        is_stride(stride(c, o), c, o),
        0 <= stride(c, o) <= SPEED,
{
    assert(SPEED * SPEED * (c * c) < (SPEED + 1) * (SPEED + 1) * (c * c + o * o))
        by (nonlinear_arith)
        requires
            SPEED == 20,
            c != 0,
    ;
    let k = stride_search(c, o, SPEED as int);
    lemma_stride_is(k, c, o);
}

/// Finds the stride of `(c, o)` by trying `from` and every shorter length.
proof fn stride_search(c: int, o: int, from: int) -> (k: int)
    requires
        c != 0,
        0 <= from,
        SPEED * SPEED * (c * c) < (from + 1) * (from + 1) * (c * c + o * o),
    ensures
        is_stride(k, c, o),
    decreases from,
{
    let n = c * c + o * o;
    let t = SPEED * SPEED * (c * c);
    if from * from * n <= t {
        from
    } else {
        assert(from != 0) by {
            if from == 0 {
                assert(from * from * n == 0) by (nonlinear_arith)
                    requires
                        from == 0,
                ;
                assert(t >= 0) by (nonlinear_arith)
                    requires
                        t == SPEED * SPEED * (c * c),
                ;
            }
        }
        stride_search(c, o, from - 1)
    }
}

/// Computes the target vector.
pub(crate) fn aim(size: (u32, u32), cat: (i32, i32), mouse: (i32, i32), offset: (i32, i32)) -> (v: (
    i64,
    i64,
))
    ensures
        (v.0 as int, v.1 as int) == target_vector(size, cat, mouse, offset),
        -REACH <= v.0 <= REACH,
        -REACH <= v.1 <= REACH,
{
    let centre_x: i64 = cat.0 as i64 + (size.0 / 2) as i64;
    let centre_y: i64 = cat.1 as i64 + (size.1 / 2) as i64;
    (mouse.0 as i64 + offset.0 as i64 - centre_x, mouse.1 as i64 + offset.1 as i64 - centre_y)
}

/// Computes the facing wall.
pub(crate) fn wall_ahead(v: (i64, i64)) -> (wall: AnimStateScratch)
    requires
        -REACH <= v.0 <= REACH,
        -REACH <= v.1 <= REACH,
    ensures
        wall == facing_wall((v.0 as int, v.1 as int)),
{
    let north: i64 = -v.1;
    let east: i64 = v.0;
    let south: i64 = v.1;
    let west: i64 = -v.0;
    if west >= north && west >= east && west >= south {
        AnimStateScratch::ScratchWallW
    } else if south >= north && south >= east {
        AnimStateScratch::ScratchWallS
    } else if east >= north {
        AnimStateScratch::ScratchWallE
    } else {
        AnimStateScratch::ScratchWallN
    }
}

/// Tests whether the creature touches `wall`.
pub(crate) fn touches(
    wall: AnimStateScratch,
    size: (u32, u32),
    cat: (i32, i32),
    monitor: (i32, i32),
) -> (b: bool)
    ensures
        b == touching(wall, size, cat, monitor),
{
    match wall {
        AnimStateScratch::ScratchWallN => cat.1 <= 0,
        AnimStateScratch::ScratchWallE => cat.0 as i64 >= monitor.0 as i64 - size.0 as i64,
        AnimStateScratch::ScratchWallS => cat.1 as i64 >= monitor.1 as i64 - size.1 as i64,
        AnimStateScratch::ScratchWallW => cat.0 <= 0,
        AnimStateScratch::ScratchSelf => false,
    }
}

/// The square of a component of a target vector.
pub(crate) fn square(c: i64) -> (s: i128)
    requires
        -REACH <= c <= REACH,
    ensures
        s == c * c,
        0 <= s <= REACH * REACH,
{
    let wide: i128 = c as i128;
    assert(0 <= wide * wide <= 0x4_0000_0000 * 0x4_0000_0000) by (nonlinear_arith)
        requires
            -0x4_0000_0000 <= wide <= 0x4_0000_0000,
    ;
    wide * wide
}

/// Tests whether the end of `v` is beyond the follow distance.
pub(crate) fn is_far(v: (i64, i64)) -> (b: bool)
    requires
        -REACH <= v.0 <= REACH,
        -REACH <= v.1 <= REACH,
    ensures
        b == far((v.0 as int, v.1 as int)),
{
    let threshold: i128 = FOLLOW_DISTANCE as i128 * FOLLOW_DISTANCE as i128;
    square(v.0) + square(v.1) > threshold
}

/// Computes the stride along `c`, trying one pixel more until the step would
/// be longer than `SPEED`.
pub(crate) fn stride_along(c: i64, o: i64) -> (k: i64)
    requires
        -REACH <= c <= REACH,
        -REACH <= o <= REACH,
    ensures
        k == stride(c as int, o as int),
        0 <= k <= SPEED,
{
    if c == 0 {
        return 0;
    }
    let cc: i128 = square(c);
    assert(0 < cc) by (nonlinear_arith)
        requires
            cc == c * c,
            c != 0,
    ;
    let n: i128 = cc + square(o);
    let speed: i128 = SPEED as i128;
    let limit: i128 = speed * speed * cc;
    let mut k: i128 = 0;
    let mut found: bool = false;
    assert(k * k * n == 0) by (nonlinear_arith)
        requires
            k == 0,
    ;
    while !found
        invariant
            0 <= k <= speed == SPEED == 20,
            cc == c * c,
            n == c * c + o * o,
            0 < cc <= n <= 2 * (REACH * REACH),
            limit == SPEED * SPEED * (c * c),
            k * k * n <= limit,
            found ==> limit < (k + 1) * (k + 1) * n,
        decreases SPEED - k + if found { 0int } else { 1int },
    {
        let next: i128 = k + 1;
        assert(0 < next * next <= 441) by (nonlinear_arith)
            requires
                0 < next <= 21,
        ;
        let next_squared: i128 = next * next;
        assert(0 <= next_squared * n <= 441 * n) by (nonlinear_arith)
            requires
                0 < next_squared <= 441,
                0 <= n,
        ;
        assert(next_squared * n == (k + 1) * (k + 1) * n);
        if k < speed && next_squared * n <= limit {
            k = next;
        } else {
            if k == speed {
                assert(limit < 21 * 21 * n) by (nonlinear_arith)
                    requires
                        limit == 20 * 20 * cc,
                        0 < cc <= n,
                ;
            }
            found = true;
        }
    }
    proof {
        lemma_stride_is(k as int, c as int, o as int);
    }
    k as i64
}

/// Computes one component of the step.
pub(crate) fn step_along(c: i64, o: i64) -> (s: i64)
    requires
        -REACH <= c <= REACH,
        -REACH <= o <= REACH,
    ensures
        s == step_component(c as int, o as int),
        vstd::math::abs(s as int) <= vstd::math::abs(c as int),
        vstd::math::abs(s as int) <= SPEED,
{
    let k: i64 = stride_along(c, o);
    let length: i64 = if c < 0 {
        -c
    } else {
        c
    };
    if k > length {
        c
    } else if c < 0 {
        -k
    } else {
        k
    }
}

/// Moves `x` into `lo ..= hi`.
pub(crate) fn clamp_into(x: i64, lo: i64, hi: i64) -> (r: i64)
    requires
        lo <= hi,
    ensures
        r == clamped(x as int, lo as int, hi as int),
        lo <= r <= hi,
{
    if x < lo {
        lo
    } else if x > hi {
        hi
    } else {
        x
    }
}

/// What a creature of `size` at `cat`, looking along `v`, scratches when it
/// grooms on a screen of size `monitor`.
pub fn scratch_target(size: (u32, u32), cat: (i32, i32), monitor: (i32, i32), v: (i32, i32)) -> (target:
    AnimStateScratch)
    ensures
        target == scratch_target_of(size, cat, monitor, (v.0 as int, v.1 as int)),
{
    let wall: AnimStateScratch = wall_ahead((v.0 as i64, v.1 as i64));
    if touches(wall, size, cat, monitor) {
        wall
    } else {
        AnimStateScratch::ScratchSelf
    }
}

/// Whether a creature of `size` at `cat`, looking along `v`, should move.
pub fn is_active(size: (u32, u32), cat: (i32, i32), monitor: (i32, i32), v: (i32, i32)) -> (b: bool)
    ensures
        b == active(size, cat, monitor, (v.0 as int, v.1 as int)),
{
    let wide: (i64, i64) = (v.0 as i64, v.1 as i64);
    is_far(wide) && !touches(wall_ahead(wide), size, cat, monitor)
}

/// The step of a creature that runs towards the end of `v`: `SPEED` pixels
/// along `v`, each component rounded towards zero and none longer than the
/// component of `v` itself.
pub fn step_toward(v: (i32, i32)) -> (step: (i32, i32))
    ensures
        (step.0 as int, step.1 as int) == step_of((v.0 as int, v.1 as int)),
        vstd::math::abs(step.0 as int) <= vstd::math::abs(v.0 as int),
        vstd::math::abs(step.1 as int) <= vstd::math::abs(v.1 as int),
        vstd::math::abs(step.0 as int) <= SPEED,
        vstd::math::abs(step.1 as int) <= SPEED,
{
    let x: i64 = step_along(v.0 as i64, v.1 as i64);
    let y: i64 = step_along(v.1 as i64, v.0 as i64);
    (x as i32, y as i32)
}

} // verus!
