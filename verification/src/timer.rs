//! A value object for waiting until a certain time has passed or an event
//! has occurred: it captures a start instant and a target duration, and
//! projects the remaining time from the scheduler's current instant.

use vstd::prelude::*;

use crate::executor::{evolves_within_step, MiniScheduler, Task, TaskPoll};
use crate::milliseconds::{wrapping_diff, wrapping_sub_millis, DurationMillis, InstantMillis};

verus! {

/// Useful for waiting until a certain time has passed or an event has
/// occurred.
///
/// A timer is a pure projection: it holds the instant of its creation and
/// the requested duration, and computes the remaining time from whatever
/// the scheduler's current instant is. It has no mutable state of its own.
#[derive(Clone, Copy, Debug)]
pub struct Timer {
    start_time: InstantMillis,
    duration: DurationMillis,
}

impl Timer {
    /// The instant when the timer was created.
    pub closed spec fn spec_start_time(&self) -> InstantMillis {
        self.start_time
    }

    /// The requested duration in milliseconds.
    pub closed spec fn spec_duration(&self) -> DurationMillis {
        self.duration
    }

    /// The remaining time at the given instant: the requested duration
    /// minus the time passed since the start, in the wrapping arithmetic of
    /// [`crate::milliseconds`]. Negative once the duration has been
    /// surpassed (by less than the duration range).
    pub open spec fn spec_time_left(&self, now: InstantMillis) -> DurationMillis {
        wrapping_sub_millis(self.spec_duration(), wrapping_diff(now@, self.spec_start_time()@))
    }

    /// Creates a timer for waiting the specified `duration` in milliseconds,
    /// starting at the scheduler's current instant.
    pub fn new<X>(sys: &MiniScheduler<X>, duration: DurationMillis) -> (r: Self)
        ensures
            r.spec_start_time() == sys.spec_instant(),
            r.spec_duration() == duration,
    {
        Self { start_time: sys.get_instant(), duration }
    }

    /// The time left before the requested duration has passed.
    ///
    /// The calculation is based on the scheduler's current instant and the
    /// requested duration. If the requested duration has been surpassed,
    /// the return value becomes negative.
    pub fn time_left<X>(&self, sys: &MiniScheduler<X>) -> (r: DurationMillis)
        ensures
            r == self.spec_time_left(sys.spec_instant()),
    {
        let time_passed = sys.get_instant().sub(self.start_time);
        self.duration.wrapping_sub(time_passed)
    }

    /// Returns `false` if no time is left, without touching the scheduler.
    /// Otherwise requests a delay that lasts at most for the remaining time
    /// and returns `true`, upon which the calling task must suspend, that
    /// is, return [`TaskPoll::Pending`] from its current poll.
    pub fn yield_if_time_left<X>(&self, sys: &mut MiniScheduler<X>) -> (r: bool)
        ensures
            r == (self.spec_time_left(old(sys).spec_instant()) > 0),
            if r {
                &&& final(sys).spec_requests() == old(sys).spec_requests().push(
                    self.spec_time_left(old(sys).spec_instant()),
                )
                &&& evolves_within_step(*old(sys), *final(sys))
            } else {
                *final(sys) == *old(sys)
            },
    {
        let time_left = self.time_left(sys);
        if time_left <= 0 {
            return false;
        }
        sys.set_delay_request(crate::executor::DurationWrapper::wrap(time_left));
        true
    }

    /// Returns a task that waits for the remaining duration.
    ///
    /// The task requests the remaining time anew on every poll, so its
    /// total waiting time is bounded by the target duration no matter how
    /// many intervening events cause early re-polls. It does not permit
    /// stopping early; if that is needed, call [`Timer::yield_if_time_left`]
    /// in the calling task's own poll loop instead.
    pub fn wait(&self) -> (r: TimerWait)
        ensures
            r.spec_timer() == *self,
    {
        TimerWait { timer: *self }
    }

    /// Returns the instant when [`Timer::new`] was invoked.
    pub fn start_time(&self) -> (r: InstantMillis)
        ensures
            r == self.spec_start_time(),
    {
        self.start_time
    }
}

/// The task returned by [`Timer::wait`].
pub struct TimerWait {
    timer: Timer,
}

impl TimerWait {
    /// The underlying timer.
    pub closed spec fn spec_timer(&self) -> Timer {
        self.timer
    }
}

impl<X> Task<X> for TimerWait {
    type Output = ();

    /// While time is left, each poll requests the remaining time as the
    /// delay and suspends; the poll that finds no time left completes
    /// without touching the scheduler.
    open spec fn poll_spec(
        pre: Self,
        pre_sched: MiniScheduler<X>,
        post: Self,
        post_sched: MiniScheduler<X>,
        r: TaskPoll<()>,
    ) -> bool {
        &&& post == pre
        &&& if pre.spec_timer().spec_time_left(pre_sched.spec_instant()) > 0 {
            &&& post_sched.spec_requests() == pre_sched.spec_requests().push(
                pre.spec_timer().spec_time_left(pre_sched.spec_instant()),
            )
            &&& r == TaskPoll::<()>::Pending
        } else {
            post_sched == pre_sched && r == TaskPoll::Ready(())
        }
    }

    fn poll(&mut self, sched: &mut MiniScheduler<X>) -> (r: TaskPoll<()>) {
        if self.timer.yield_if_time_left(sched) {
            TaskPoll::Pending
        } else {
            TaskPoll::Ready(())
        }
    }
}

} // verus!
