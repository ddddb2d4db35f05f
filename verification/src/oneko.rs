//! The creature itself: its pose, its timer and what it does each tick.

use crate::chance::{choose_pastime, roll};
use crate::raster::{view_rows, view_width, FrameView};
use crate::sprite_sheet::{frame_at, millis, SpriteSheet};
use crate::states::{
    classify, direction_of, frames_of, get_animation, interval_millis, AnimState, AnimStateIdle,
    AnimStateMoving, AnimStateScratch, IdleChoice,
};
use crate::steering::{
    active, aim, clamp_into, clamped, is_far, lemma_step_no_overshoot, scratch_target_of,
    step_along, step_of, target_vector, touches, wall_ahead, SPEED,
};
use std::time::Duration;
use vstd::math::abs;
use vstd::prelude::*;

verus! {

/// An idle creature looks for a pastime once it has idled for more ticks
/// than this.
pub const IDLE_TICKS: u32 = 10;

/// Scratching ends after more ticks than this.
pub const SCRATCH_TICKS: u32 = 9;

/// A tired creature falls asleep after more ticks than this.
pub const TIRED_TICKS: u32 = 7;

/// A sleeping creature wakes after more ticks than this.
pub const SLEEP_TICKS: u32 = 46;

/// An alert creature starts to run after more ticks than this.
pub const ALERT_TICKS: u32 = 6;

/// The farthest the point that the creature attends to lies from the
/// pointer, on each axis, for a creature made by `Oneko::default`.
pub const OFFSET_RANGE: i32 = 50;

/// The state that follows `state` after `counter` ticks in it.
///
/// `active` says whether the creature should move, `heading` where its
/// target lies, `scratch` what it would scratch, and `choice` which pastime
/// the dice picked. The first rule that applies decides; where none does the
/// state stays.
pub open spec fn transition(
    state: AnimState,
    counter: nat,
    active: bool,
    heading: AnimStateMoving,
    scratch: AnimStateScratch,
    choice: IdleChoice,
) -> AnimState {
    match state {
        AnimState::Moving(_) => if active {
            AnimState::Moving(heading)
        } else {
            AnimState::Idle(AnimStateIdle::Idle)
        },
        AnimState::Idle(idle) => if active {
            AnimState::Alert
        } else {
            match idle {
                AnimStateIdle::Idle => if counter > IDLE_TICKS {
                    match choice {
                        IdleChoice::Scratch => AnimState::Idle(AnimStateIdle::Scratch(scratch)),
                        IdleChoice::Tired => AnimState::Idle(AnimStateIdle::Tired),
                    }
                } else {
                    state
                },
                AnimStateIdle::Scratch(_) => if counter > SCRATCH_TICKS {
                    AnimState::Idle(AnimStateIdle::Idle)
                } else {
                    state
                },
                AnimStateIdle::Tired => if counter > TIRED_TICKS {
                    AnimState::Idle(AnimStateIdle::Sleeping)
                } else {
                    state
                },
                AnimStateIdle::Sleeping => if counter > SLEEP_TICKS {
                    AnimState::Idle(AnimStateIdle::Idle)
                } else {
                    state
                },
            }
        },
        AnimState::Alert => if counter > ALERT_TICKS {
            AnimState::Moving(heading)
        } else {
            state
        },
    }
}

/// Whether the dice decide what follows `state`: only a creature that has
/// idled long enough, and need not move, picks a pastime.
pub open spec fn draws(state: AnimState, counter: nat, active: bool) -> bool {
    state == AnimState::Idle(AnimStateIdle::Idle) && !active && counter > IDLE_TICKS
}

/// But for a creature that picks a pastime, the next state does not depend
/// on the dice.
pub proof fn lemma_transition_ignores_dice(
    state: AnimState,
    counter: nat,
    active: bool,
    heading: AnimStateMoving,
    scratch: AnimStateScratch,
    one: IdleChoice,
    other: IdleChoice,
)
    requires
        !draws(state, counter, active),
    ensures
        transition(state, counter, active, heading, scratch, one) == transition(
            state,
            counter,
            active,
            heading,
            scratch,
            other,
        ),
{
}

/// A creature that picks a pastime scratches or gets tired, as the dice say.
pub proof fn lemma_transition_follows_dice(
    state: AnimState,
    counter: nat,
    active: bool,
    heading: AnimStateMoving,
    scratch: AnimStateScratch,
)
    requires
        draws(state, counter, active),
    ensures
        transition(state, counter, active, heading, scratch, IdleChoice::Scratch)
            == AnimState::Idle(AnimStateIdle::Scratch(scratch)),
        transition(state, counter, active, heading, scratch, IdleChoice::Tired) == AnimState::Idle(
            AnimStateIdle::Tired,
        ),
{
}

/// Computes the state that follows `state`.
pub fn next_state(
    state: AnimState,
    counter: u32,
    active: bool,
    heading: AnimStateMoving,
    scratch: AnimStateScratch,
    choice: IdleChoice,
) -> (next: AnimState)
    ensures
        next == transition(state, counter as nat, active, heading, scratch, choice),
{
    match state {
        AnimState::Moving(_) => if active {
            AnimState::Moving(heading)
        } else {
            AnimState::Idle(AnimStateIdle::Idle)
        },
        AnimState::Idle(idle) => if active {
            AnimState::Alert
        } else {
            match idle {
                AnimStateIdle::Idle => if counter > IDLE_TICKS {
                    match choice {
                        IdleChoice::Scratch => AnimState::Idle(AnimStateIdle::Scratch(scratch)),
                        IdleChoice::Tired => AnimState::Idle(AnimStateIdle::Tired),
                    }
                } else {
                    state
                },
                AnimStateIdle::Scratch(_) => if counter > SCRATCH_TICKS {
                    AnimState::Idle(AnimStateIdle::Idle)
                } else {
                    state
                },
                AnimStateIdle::Tired => if counter > TIRED_TICKS {
                    AnimState::Idle(AnimStateIdle::Sleeping)
                } else {
                    state
                },
                AnimStateIdle::Sleeping => if counter > SLEEP_TICKS {
                    AnimState::Idle(AnimStateIdle::Idle)
                } else {
                    state
                },
            }
        },
        AnimState::Alert => if counter > ALERT_TICKS {
            AnimState::Moving(heading)
        } else {
            state
        },
    }
}

/// What a creature is, as far as its behaviour goes.
pub struct OnekoView {
    /// The current pose.
    pub state: AnimState,
    /// The ticks that have passed since the pose last changed.
    pub counter: nat,
    /// The shift from the pointer to the point that the creature attends to.
    pub offset: (i32, i32),
}

impl OnekoView {
    /// The cell of the sprite sheet that shows the creature.
    pub open spec fn frame(self) -> crate::sprite_sheet::FrameRef {
        frame_at(frames_of(self.state), self.counter)
    }
}

/// What one tick yields.
pub struct Outcome {
    /// The creature after the tick.
    pub creature: OnekoView,
    /// The milliseconds to wait before the next tick.
    pub delay: u64,
    /// The creature's top left corner after the tick.
    pub position: (int, int),
}

/// One tick of a creature of `size` whose top left corner is at `cat`, on a
/// screen of size `monitor` with the pointer at `mouse`.
///
/// The state changes as `transition` says. The counter starts again at zero
/// when the state changes and else counts the tick. A creature that is then
/// moving takes a step towards its target, and its position is kept on the
/// screen. The delay is the interval of the animation of the new state.
pub open spec fn tick(
    creature: OnekoView,
    size: (u32, u32),
    cat: (i32, i32),
    mouse: (i32, i32),
    monitor: (i32, i32),
    choice: IdleChoice,
) -> Outcome {
    let v = target_vector(size, cat, mouse, creature.offset);
    let next = transition(
        creature.state,
        creature.counter,
        active(size, cat, monitor, v),
        direction_of(v.0, v.1),
        scratch_target_of(size, cat, monitor, v),
        choice,
    );
    let counter = if next != creature.state {
        0nat
    } else {
        creature.counter + 1
    };
    let step = if next is Moving {
        step_of(v)
    } else {
        (0int, 0int)
    };
    Outcome {
        creature: OnekoView { state: next, counter, offset: creature.offset },
        delay: interval_millis(next),
        position: (
            clamped(cat.0 + step.0, 0, monitor.0 - size.0),
            clamped(cat.1 + step.1, 0, monitor.1 - size.1),
        ),
    }
}

/// A tick changes the state by the table of transitions, whatever the
/// screen and wherever the creature is. With `moves` for whether the
/// creature should move, `heading` for where its target lies and `scratch`
/// for what it would scratch, the rules are, the first that applies deciding:
/// a moving creature idles when it need not move and else runs on towards
/// its target; an idle one that should move is alerted; one that sat still
/// long enough takes the pastime that the dice picked; scratching, tiredness
/// and sleep each end after their time; alertness ends in running; and where
/// none of these applies the state stays.
pub proof fn lemma_tick_follows_the_table(
    creature: OnekoView,
    size: (u32, u32),
    cat: (i32, i32),
    mouse: (i32, i32),
    monitor: (i32, i32),
    choice: IdleChoice,
)
    ensures
        ({
            let v = target_vector(size, cat, mouse, creature.offset);
            let moves = active(size, cat, monitor, v);
            let heading = direction_of(v.0, v.1);
            let scratch = scratch_target_of(size, cat, monitor, v);
            let state = creature.state;
            let count = creature.counter;
            let scratches = state is Idle && state->Idle_0 is Scratch;
            let next = tick(creature, size, cat, mouse, monitor, choice).creature.state;
            &&& state is Moving && !moves ==> next == AnimState::Idle(AnimStateIdle::Idle)
            &&& state is Moving && moves ==> next == AnimState::Moving(heading)
            &&& state is Idle && moves ==> next == AnimState::Alert
            &&& state == AnimState::Idle(AnimStateIdle::Idle) && !moves && count > IDLE_TICKS
                ==> next == match choice {
                IdleChoice::Scratch => AnimState::Idle(AnimStateIdle::Scratch(scratch)),
                IdleChoice::Tired => AnimState::Idle(AnimStateIdle::Tired),
            }
            &&& scratches && !moves && count > SCRATCH_TICKS ==> next == AnimState::Idle(
                AnimStateIdle::Idle,
            )
            &&& state == AnimState::Idle(AnimStateIdle::Tired) && !moves && count > TIRED_TICKS
                ==> next == AnimState::Idle(AnimStateIdle::Sleeping)
            &&& state == AnimState::Idle(AnimStateIdle::Sleeping) && !moves && count > SLEEP_TICKS
                ==> next == AnimState::Idle(AnimStateIdle::Idle)
            &&& state == AnimState::Alert && count > ALERT_TICKS ==> next == AnimState::Moving(
                heading,
            )
            &&& state == AnimState::Idle(AnimStateIdle::Idle) && !moves && count <= IDLE_TICKS
                ==> next == state
            &&& scratches && !moves && count <= SCRATCH_TICKS ==> next == state
            &&& state == AnimState::Idle(AnimStateIdle::Tired) && !moves && count <= TIRED_TICKS
                ==> next == state
            &&& state == AnimState::Idle(AnimStateIdle::Sleeping) && !moves && count
                <= SLEEP_TICKS ==> next == state
            &&& state == AnimState::Alert && count <= ALERT_TICKS ==> next == state
        }),
{
}

/// The counter starts again at zero exactly when a tick changes the state,
/// and counts exactly one tick more when it does not.
pub proof fn lemma_tick_counts(
    creature: OnekoView,
    size: (u32, u32),
    cat: (i32, i32),
    mouse: (i32, i32),
    monitor: (i32, i32),
    choice: IdleChoice,
)
    ensures
        ({
            let after = tick(creature, size, cat, mouse, monitor, choice).creature;
            &&& after.state != creature.state ==> after.counter == 0
            &&& after.state == creature.state ==> after.counter == creature.counter + 1
            &&& after.counter == 0 <==> after.state != creature.state
            &&& after.offset == creature.offset
        }),
{
}

/// A creature on the screen never passes its target: in a tick it moves, on
/// each axis, towards its target, no farther than the target lies and no
/// farther than a full step, and unless it is moving after the tick it stays
/// where it is.
pub proof fn lemma_tick_does_not_overshoot(
    creature: OnekoView,
    size: (u32, u32),
    cat: (i32, i32),
    mouse: (i32, i32),
    monitor: (i32, i32),
    choice: IdleChoice,
)
    requires
        0 <= cat.0 <= monitor.0 - size.0,
        0 <= cat.1 <= monitor.1 - size.1,
    ensures
        ({
            let outcome = tick(creature, size, cat, mouse, monitor, choice);
            let v = target_vector(size, cat, mouse, creature.offset);
            let moved = (outcome.position.0 - cat.0, outcome.position.1 - cat.1);
            &&& abs(moved.0) <= abs(v.0)
            &&& abs(moved.1) <= abs(v.1)
            &&& abs(moved.0) <= SPEED
            &&& abs(moved.1) <= SPEED
            &&& v.0 >= 0 ==> moved.0 >= 0
            &&& v.0 <= 0 ==> moved.0 <= 0
            &&& v.1 >= 0 ==> moved.1 >= 0
            &&& v.1 <= 0 ==> moved.1 <= 0
            &&& !(outcome.creature.state is Moving) ==> moved == (0int, 0int)
        }),
{
    let v = target_vector(size, cat, mouse, creature.offset);
    lemma_step_no_overshoot(v.0, v.1);
    lemma_step_no_overshoot(v.1, v.0);
}

/// A target beyond the follow distance alerts an idle creature that is not
/// pinned against the wall it faces: its timer starts again, and the next
/// tick is due after the interval of the alert pose.
pub proof fn lemma_far_target_alerts(
    creature: OnekoView,
    size: (u32, u32),
    cat: (i32, i32),
    mouse: (i32, i32),
    monitor: (i32, i32),
    choice: IdleChoice,
)
    requires
        creature.state is Idle,
        active(size, cat, monitor, target_vector(size, cat, mouse, creature.offset)),
    ensures
        ({
            let outcome = tick(creature, size, cat, mouse, monitor, choice);
            &&& outcome.creature.state == AnimState::Alert
            &&& outcome.creature.counter == 0
            &&& outcome.delay == 100
        }),
{
}

/// A creature that has sat still for more than `IDLE_TICKS` ticks and need
/// not move takes the pastime that the dice picked: it gets tired, or it
/// scratches what there is to scratch. Either way its timer starts again.
pub proof fn lemma_long_idling_ends_in_a_pastime(
    creature: OnekoView,
    size: (u32, u32),
    cat: (i32, i32),
    mouse: (i32, i32),
    monitor: (i32, i32),
)
    requires
        creature.state == AnimState::Idle(AnimStateIdle::Idle),
        creature.counter > IDLE_TICKS,
        !active(size, cat, monitor, target_vector(size, cat, mouse, creature.offset)),
    ensures
        ({
            let v = target_vector(size, cat, mouse, creature.offset);
            let tired = tick(creature, size, cat, mouse, monitor, IdleChoice::Tired).creature;
            let scratching = tick(creature, size, cat, mouse, monitor, IdleChoice::Scratch).creature;
            &&& tired.state == AnimState::Idle(AnimStateIdle::Tired)
            &&& tired.counter == 0
            &&& scratching.state == AnimState::Idle(
                AnimStateIdle::Scratch(scratch_target_of(size, cat, monitor, v)),
            )
            &&& scratching.counter == 0
        }),
{
}

/// A creature that has slept for more than `SLEEP_TICKS` ticks and need not
/// move wakes up and sits still, and its timer starts again.
pub proof fn lemma_long_sleep_ends(
    creature: OnekoView,
    size: (u32, u32),
    cat: (i32, i32),
    mouse: (i32, i32),
    monitor: (i32, i32),
    choice: IdleChoice,
)
    requires
        creature.state == AnimState::Idle(AnimStateIdle::Sleeping),
        creature.counter > SLEEP_TICKS,
        !active(size, cat, monitor, target_vector(size, cat, mouse, creature.offset)),
    ensures
        ({
            let outcome = tick(creature, size, cat, mouse, monitor, choice);
            &&& outcome.creature.state == AnimState::Idle(AnimStateIdle::Idle)
            &&& outcome.creature.counter == 0
            &&& outcome.delay == 100
        }),
{
}

/// A creature at the left edge of the screen whose target lies to the west,
/// no farther up or down than left, faces the west wall and touches it. So
/// it is not alerted however far the target is, and told to scratch after
/// sitting still long enough it scratches that wall, not itself.
pub proof fn lemma_west_wall_is_scratched(
    creature: OnekoView,
    size: (u32, u32),
    cat: (i32, i32),
    mouse: (i32, i32),
    monitor: (i32, i32),
)
    requires
        cat.0 <= 0,
        -target_vector(size, cat, mouse, creature.offset).0 >= abs(
            target_vector(size, cat, mouse, creature.offset).1,
        ),
    ensures
        ({
            let v = target_vector(size, cat, mouse, creature.offset);
            let after = tick(creature, size, cat, mouse, monitor, IdleChoice::Scratch).creature;
            &&& scratch_target_of(size, cat, monitor, v) == AnimStateScratch::ScratchWallW
            &&& !active(size, cat, monitor, v)
            &&& creature.state == AnimState::Idle(AnimStateIdle::Idle) && creature.counter
                > IDLE_TICKS ==> {
                &&& after.state == AnimState::Idle(
                    AnimStateIdle::Scratch(AnimStateScratch::ScratchWallW),
                )
                &&& after.counter == 0
            }
        }),
{
}

/// Whether a tick with the pastime `choice` takes the creature from `before`
/// to `after` and yields `r`: the time to wait and the new position.
pub open spec fn is_tick(
    before: OnekoView,
    after: OnekoView,
    r: (Duration, (i32, i32)),
    size: (u32, u32),
    cat: (i32, i32),
    mouse: (i32, i32),
    monitor: (i32, i32),
    choice: IdleChoice,
) -> bool {
    let outcome = tick(before, size, cat, mouse, monitor, choice);
    &&& after == outcome.creature
    &&& r.0 == millis(outcome.delay)
    &&& (r.1.0 as int, r.1.1 as int) == outcome.position
}

/// The creature: a pose, the ticks spent in it, and the shift from the
/// pointer to the point that it attends to.
pub struct Oneko {
    anim: AnimState,
    frame_count: u32,
    offset: (i32, i32),
}

impl View for Oneko {
    type V = OnekoView;

    closed spec fn view(&self) -> OnekoView {
        OnekoView { state: self.anim, counter: self.frame_count as nat, offset: self.offset }
    }
}

impl Default for Oneko {
    /// An idle creature that attends to a point near the pointer, chosen at
    /// random once and for all.
    fn default() -> (creature: Self)
        ensures
            creature@.state == AnimState::Idle(AnimStateIdle::Idle),
            creature@.counter == 0,
            -OFFSET_RANGE <= creature@.offset.0 <= OFFSET_RANGE,
            -OFFSET_RANGE <= creature@.offset.1 <= OFFSET_RANGE,
    {
        let x: i32 = roll(-OFFSET_RANGE, OFFSET_RANGE + 1);
        let y: i32 = roll(-OFFSET_RANGE, OFFSET_RANGE + 1);
        Oneko::new((x, y))
    }
}

impl Oneko {
    /// An idle creature that attends to the pointer shifted by `offset`.
    pub fn new(offset: (i32, i32)) -> (creature: Self)
        ensures
            creature@ == (OnekoView {
                state: AnimState::Idle(AnimStateIdle::Idle),
                counter: 0,
                offset,
            }),
    {
        Oneko { anim: AnimState::Idle(AnimStateIdle::Idle), frame_count: 0, offset }
    }

    /// A creature that has spent `frame_count` ticks in `state`.
    pub fn resume(state: AnimState, frame_count: u32, offset: (i32, i32)) -> (creature: Self)
        ensures
            creature@ == (OnekoView { state, counter: frame_count as nat, offset }),
    {
        Oneko { anim: state, frame_count, offset }
    }

    /// The current pose.
    pub fn state(&self) -> (state: AnimState)
        ensures
            state == self@.state,
    {
        self.anim
    }

    /// The ticks that have passed since the pose last changed.
    pub fn frame_count(&self) -> (count: u32)
        ensures
            count == self@.counter,
    {
        self.frame_count
    }

    /// The shift from the pointer to the point that the creature attends to.
    pub fn offset(&self) -> (offset: (i32, i32))
        ensures
            offset == self@.offset,
    {
        self.offset
    }

    /// Advances the creature by one tick, with the pastime that the dice
    /// picked handed in, and returns the time to wait before the next tick
    /// and the creature's new position.
    ///
    /// The creature must fit on the screen, and the tick must not overflow
    /// the counter.
    pub fn act_with(
        &mut self,
        size: (u32, u32),
        cat: (i32, i32),
        mouse: (i32, i32),
        monitor: (i32, i32),
        choice: IdleChoice,
    ) -> (r: (Duration, (i32, i32)))
        requires
            size.0 <= monitor.0,
            size.1 <= monitor.1,
            old(self)@.counter < u32::MAX,
        ensures
            is_tick(old(self)@, final(self)@, r, size, cat, mouse, monitor, choice),
            final(self)@.state != old(self)@.state ==> final(self)@.counter == 0,
            final(self)@.state == old(self)@.state ==> final(self)@.counter == old(self)@.counter
                + 1,
            final(self)@.offset == old(self)@.offset,
            0 <= r.1.0 <= monitor.0 - size.0,
            0 <= r.1.1 <= monitor.1 - size.1,
    {
        let v: (i64, i64) = aim(size, cat, mouse, self.offset);
        let wall: AnimStateScratch = wall_ahead(v);
        let touching_wall: bool = touches(wall, size, cat, monitor);
        let scratch: AnimStateScratch = if touching_wall {
            wall
        } else {
            AnimStateScratch::ScratchSelf
        };
        let active: bool = is_far(v) && !touching_wall;
        let next: AnimState = next_state(
            self.anim,
            self.frame_count,
            active,
            classify(v),
            scratch,
            choice,
        );
        if next != self.anim {
            self.anim = next;
            self.frame_count = 0;
        } else {
            self.frame_count = self.frame_count + 1;
        }
        let step: (i64, i64) = match next {
            AnimState::Moving(_) => (step_along(v.0, v.1), step_along(v.1, v.0)),
            _ => (0, 0),
        };
        let x: i64 = clamp_into(cat.0 as i64 + step.0, 0, monitor.0 as i64 - size.0 as i64);
        let y: i64 = clamp_into(cat.1 as i64 + step.1, 0, monitor.1 as i64 - size.1 as i64);
        (get_animation(next).interval, (x as i32, y as i32))
    }

    /// Advances the creature by one tick on the sheet's cell size, letting
    /// the dice pick the pastime, and returns the time to wait before the
    /// next tick and the creature's new position.
    ///
    /// The creature must fit on the screen, and the tick must not overflow
    /// the counter.
    pub fn act(
        &mut self,
        sheet: &SpriteSheet,
        cat: (i32, i32),
        mouse: (i32, i32),
        monitor: (i32, i32),
    ) -> (r: (Duration, (i32, i32)))
        requires
            sheet@.cell.0 <= monitor.0,
            sheet@.cell.1 <= monitor.1,
            old(self)@.counter < u32::MAX,
        ensures
            is_tick(
                old(self)@,
                final(self)@,
                r,
                sheet@.cell,
                cat,
                mouse,
                monitor,
                IdleChoice::Scratch,
            ) || is_tick(
                old(self)@,
                final(self)@,
                r,
                sheet@.cell,
                cat,
                mouse,
                monitor,
                IdleChoice::Tired,
            ),
            final(self)@.state != old(self)@.state ==> final(self)@.counter == 0,
            final(self)@.state == old(self)@.state ==> final(self)@.counter == old(self)@.counter
                + 1,
            final(self)@.offset == old(self)@.offset,
            0 <= r.1.0 <= monitor.0 - sheet@.cell.0,
            0 <= r.1.1 <= monitor.1 - sheet@.cell.1,
    {
        let options: [IdleChoice; 2] = [IdleChoice::Scratch, IdleChoice::Tired];
        let choice: IdleChoice = choose_pastime(&options).unwrap();
        self.act_with(sheet.get_size(), cat, mouse, monitor, choice)
    }

    /// Startles the creature: whatever it did, it is alert now and its timer
    /// starts again.
    pub fn click(&mut self)
        ensures
            final(self)@ == (OnekoView {
                state: AnimState::Alert,
                counter: 0,
                offset: old(self)@.offset,
            }),
    {
        self.anim = AnimState::Alert;
        self.frame_count = 0;
    }

    /// A view of the cell of `sheet` that shows the creature, which the
    /// sheet must hold.
    pub fn get_frame<'a>(&self, sheet: &'a SpriteSheet) -> (v: FrameView<'a>)
        requires
            sheet@.contains(self@.frame()),
        ensures
            view_width(v) == sheet@.cell.0,
            view_rows(v) == sheet@.frame(self@.frame()),
    {
        let animation = get_animation(self.anim);
        sheet.get_anim_view(&animation, self.frame_count as usize)
    }
}

} // verus!
