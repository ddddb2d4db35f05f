//! When to tick, when to arm the timer and when to leave: the decisions of
//! the event loop, apart from the loop itself.

use vstd::prelude::*;

verus! {

/// Why the event loop woke up.
#[derive(Debug, Clone, Copy, PartialEq, Eq, Structural)]
pub enum Wake {
    /// The loop has just started.
    Init,
    /// The time that the timer was armed for has come.
    TimeReached,
    /// Something else arrived while the timer was still running.
    WaitCancelled,
    /// Any other cause.
    Other,
}

/// What to do before the loop goes back to waiting.
#[derive(Debug, Clone, Copy, PartialEq, Eq, Structural)]
pub struct Plan {
    /// Arm the timer for the next tick, if a next tick is known.
    pub arm_timer: bool,
    /// Leave the loop.
    pub exit: bool,
}

/// What the event loop remembers between its callbacks.
#[derive(Debug, Clone, Copy, PartialEq, Eq, Structural)]
pub struct Schedule {
    /// The last wake-up interrupted a wait whose timer still runs.
    pub wait_cancelled: bool,
    /// The user asked to close the window.
    pub close_requested: bool,
}

impl Schedule {
    /// A schedule at the start of the loop.
    pub fn new() -> (schedule: Self)
        ensures
            schedule == (Schedule { wait_cancelled: false, close_requested: false }),
    {
        Schedule { wait_cancelled: false, close_requested: false }
    }

    /// Takes note of a wake-up and says whether the creature is to tick now:
    /// it ticks at the start and whenever its timer has run out.
    pub fn wake(&mut self, cause: Wake) -> (tick: bool)
        ensures
            tick == (cause == Wake::Init || cause == Wake::TimeReached),
            *final(self) == (Schedule {
                wait_cancelled: cause == Wake::WaitCancelled,
                close_requested: old(self).close_requested,
            }),
    {
        self.wait_cancelled = match cause {
            Wake::WaitCancelled => true,
            _ => false,
        };
        match cause {
            Wake::Init | Wake::TimeReached => true,
            _ => false,
        }
    }

    /// Takes note that the user asked to close the window.
    pub fn request_close(&mut self)
        ensures
            *final(self) == (Schedule {
                wait_cancelled: old(self).wait_cancelled,
                close_requested: true,
            }),
    {
        self.close_requested = true;
    }

    /// What to do before waiting: the timer is armed unless it still runs,
    /// and the loop is left once the user has asked for it.
    pub fn before_wait(&self) -> (plan: Plan)
        ensures
            plan == (Plan { arm_timer: !self.wait_cancelled, exit: self.close_requested }),
    {
        Plan { arm_timer: !self.wait_cancelled, exit: self.close_requested }
    }
}

} // verus!
