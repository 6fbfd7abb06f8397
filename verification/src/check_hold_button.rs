//! A helper built on the button processor to watch whether the user keeps
//! holding a button combination for a specified amount of time, or lets go
//! of it early.

use vstd::prelude::*;

use crate::button_processor::{
    ButtonClient, ButtonEvent, ButtonFlagsTrait, ButtonProcessor, ButtonState,
};
use crate::executor::{evolves_within_step, MiniScheduler, TaskPoll};
use crate::milliseconds::{wrapping_diff, wrapping_sub_millis, DurationMillis, InstantMillis};

verus! {

/// How a watch on a held button combination ended.
#[derive(Copy, Clone, Debug, PartialEq, Eq)]
pub enum CheckHoldButtonResult {
    /// button state has changed to something else; no interpretable event
    Other,
    /// button(s) were released early
    ReleaseEarly,
    /// buttons have been held for the required duration
    Hold,
}

/// Helps to watch if the user has been holding down a button combination
/// for a specified amount of time. It captures the held flag set and the
/// instant the combination appeared, taken from the button processor's
/// current state.
#[derive(Copy, Clone, Debug)]
pub struct CheckHoldButton<F> {
    duration: DurationMillis,
    since: InstantMillis,
    button_flags: F,
}

/// What one check against the processor cells concludes: an early release
/// of the watched combination, any other change of state ("other"), a
/// confirmed hold once no time is left, or nothing yet (`None`), in which
/// case the watch sleeps for the remaining time and must be checked again.
pub open spec fn check_hold_spec<F: ButtonFlagsTrait>(
    chk: CheckHoldButton<F>,
    now: InstantMillis,
    event: ButtonEvent<F>,
    state: ButtonState<F>,
) -> Option<CheckHoldButtonResult> {
    if event matches ButtonEvent::Release(bflg) && bflg == chk.spec_button_flags() {
        Some(CheckHoldButtonResult::ReleaseEarly)
    } else if !(state matches ButtonState::SomeButtons { button_flags, .. }
        && button_flags == chk.spec_button_flags()) {
        Some(CheckHoldButtonResult::Other)
    } else if chk.spec_time_left(now) <= 0 {
        Some(CheckHoldButtonResult::Hold)
    } else {
        None
    }
}

impl<F: ButtonFlagsTrait> CheckHoldButton<F> {
    /// The time the user needs to hold the combination down.
    pub closed spec fn spec_duration(&self) -> DurationMillis {
        self.duration
    }

    /// The instant since when the combination has been held.
    pub closed spec fn spec_since(&self) -> InstantMillis {
        self.since
    }

    /// The watched button combination.
    pub closed spec fn spec_button_flags(&self) -> F {
        self.button_flags
    }

    /// The remaining hold time at the given instant, in the wrapping
    /// arithmetic of [`crate::milliseconds`]; negative once the required
    /// duration has been reached.
    pub open spec fn spec_time_left(&self, now: InstantMillis) -> DurationMillis {
        wrapping_sub_millis(self.spec_duration(), wrapping_diff(now@, self.spec_since()@))
    }

    /// Initializes the `CheckHoldButton` structure.
    ///
    /// Prerequisite is that the user is already pressing the button
    /// combination to watch for: the button processor's state must be
    /// [`ButtonState::SomeButtons`]. Calling it in any other state is a
    /// caller protocol violation, which the precondition rules out.
    ///
    /// The `duration` specifies the time in milliseconds that the user
    /// needs to hold down the button combination.
    pub fn new(buttons: &ButtonProcessor<F>, duration: DurationMillis) -> (r: Self)
        requires
            buttons.spec_state() matches ButtonState::SomeButtons { .. },
        ensures
            ({
                let state = buttons.spec_state();
                &&& r.spec_duration() == duration
                &&& state matches ButtonState::SomeButtons { button_flags, since, .. }
                    && r.spec_button_flags() == button_flags && r.spec_since() == since
            }),
    {
        match buttons.state() {
            ButtonState::SomeButtons { button_flags, since, last_repetition: _ } => {
                Self { since, duration, button_flags }
            },
            _ => {
                unreached()
            },
        }
    }

    /// Calculates the time left until the user has held down the button
    /// combination for the given duration. Can be negative.
    pub fn time_left<X>(&self, sys: &MiniScheduler<X>) -> (r: DurationMillis)
        ensures
            r == self.spec_time_left(sys.spec_instant()),
    {
        let time_passed = sys.get_instant().sub(self.since);
        self.duration.wrapping_sub(time_passed)
    }

    /// Returns some [`CheckHoldButtonResult`] if the button state has
    /// changed or if time is up, exactly as [`check_hold_spec`] says.
    /// Otherwise requests a delay that lasts at most for the remaining time
    /// and returns `None`, upon which the calling task must suspend and
    /// check again at its next poll.
    ///
    /// Use this function to watch for other events besides the button
    /// combination being held down; otherwise [`CheckHoldButton::wait`] is
    /// simpler to use.
    pub fn yield_if_time_left<X>(
        &self,
        sys: &mut MiniScheduler<X>,
        buttons: &ButtonProcessor<F>,
    ) -> (r: Option<CheckHoldButtonResult>)
        ensures
            r == check_hold_spec(
                *self,
                old(sys).spec_instant(),
                buttons.spec_event(),
                buttons.spec_state(),
            ),
            if r is None {
                &&& final(sys).spec_requests() == old(sys).spec_requests().push(
                    self.spec_time_left(old(sys).spec_instant()),
                )
                &&& evolves_within_step(*old(sys), *final(sys))
            } else {
                *final(sys) == *old(sys)
            },
    {
        match buttons.event() {
            ButtonEvent::Release(bflg) => {
                if bflg.same_as(self.button_flags) {
                    return Some(CheckHoldButtonResult::ReleaseEarly);
                }
            },
            _ => {},
        }
        let held = match buttons.state() {
            ButtonState::SomeButtons { button_flags, .. } => {
                button_flags.same_as(self.button_flags)
            },
            _ => false,
        };
        if !held {
            return Some(CheckHoldButtonResult::Other);
        }
        let time_left = self.time_left(sys);
        if time_left <= 0 {
            return Some(CheckHoldButtonResult::Hold);
        }
        sys.set_delay_request(crate::executor::DurationWrapper::wrap(time_left));
        None
    }

    /// Returns a client task that waits until either the button combination
    /// has been held down for the specified duration, or the button state
    /// changes early.
    pub fn wait(&self) -> (r: CheckHoldWait<F>)
        ensures
            r.spec_check() == *self,
    {
        CheckHoldWait { check: *self }
    }

    /// Gets the instant since when the button combination is held down.
    pub fn start_time(&self) -> (r: InstantMillis)
        ensures
            r == self.spec_since(),
    {
        self.since
    }
}

/// The client task returned by [`CheckHoldButton::wait`].
pub struct CheckHoldWait<F> {
    check: CheckHoldButton<F>,
}

impl<F: ButtonFlagsTrait> CheckHoldWait<F> {
    /// The underlying watch.
    pub closed spec fn spec_check(&self) -> CheckHoldButton<F> {
        self.check
    }
}

impl<F: ButtonFlagsTrait, X> ButtonClient<F, X> for CheckHoldWait<F> {
    type Output = CheckHoldButtonResult;

    /// Each poll runs one check: ready with the conclusion of
    /// [`check_hold_spec`] as soon as there is one, otherwise the remaining
    /// hold time is requested as the delay and the task stays pending.
    open spec fn poll_spec(
        pre: Self,
        pre_sched: MiniScheduler<X>,
        buttons: ButtonProcessor<F>,
        post: Self,
        post_sched: MiniScheduler<X>,
        r: TaskPoll<CheckHoldButtonResult>,
    ) -> bool {
        let conclusion = check_hold_spec(
            pre.spec_check(),
            pre_sched.spec_instant(),
            buttons.spec_event(),
            buttons.spec_state(),
        );
        &&& post == pre
        &&& match conclusion {
            Some(result) => r == TaskPoll::Ready(result) && post_sched == pre_sched,
            None => {
                &&& r == TaskPoll::<CheckHoldButtonResult>::Pending
                &&& post_sched.spec_requests() == pre_sched.spec_requests().push(
                    pre.spec_check().spec_time_left(pre_sched.spec_instant()),
                )
            },
        }
    }

    fn poll(&mut self, sched: &mut MiniScheduler<X>, buttons: &ButtonProcessor<F>) -> (r: TaskPoll<
        CheckHoldButtonResult,
    >) {
        match self.check.yield_if_time_left(sched, buttons) {
            Some(result) => TaskPoll::Ready(result),
            None => TaskPoll::Pending,
        }
    }
}

} // verus!
