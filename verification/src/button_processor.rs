//! The button processor: a state machine over raw per-button bitflags that
//! produces debounced press/repeat/release events with auto-repeat timing.
//!
//! From the hardware, we get an on/off state for each of the buttons,
//! encoded in "button flags" of generic type `F`. Building logic on these
//! raw states is possible but cumbersome. The button processor recognizes
//! state changes and turns them into events:
//!
//! * When one or several buttons are pushed simultaneously, a
//!   [`ButtonEvent::Press`] event is issued.
//! * When additional buttons are pushed, another [`ButtonEvent::Press`]
//!   event is issued, which allows responding to button combinations.
//! * When a button combination is held down for longer than
//!   [`ButtonProcessorOptions::repetition_start_delay`] milliseconds, a
//!   first [`ButtonEvent::Repeat`] event is issued; further repeats follow
//!   every [`ButtonProcessorOptions::repetition_delay`] milliseconds.
//! * When one or several buttons are released, a [`ButtonEvent::Release`]
//!   event is issued. After a partial release — some but not all buttons
//!   let go — further state changes are ignored until all buttons read as
//!   released, which filters out state changes that do not correspond to
//!   typical usage patterns.
//!
//! The processor runs as one branch of a [`crate::basic_futures::join2`]
//! tree: [`ButtonProcessor::run`] pairs the driving state machine with a
//! caller-supplied [`ButtonClient`] task, which reads the current event and
//! state on each of its polls.

use vstd::prelude::*;

use crate::executor::{evolves_within_step, MiniScheduler, Task, TaskPoll};
use crate::milliseconds::{wrapping_diff, wrapping_sub_millis, DurationMillis, InstantMillis};
use crate::timer::Timer;

verus! {

/// Access to the button signal, read from the signals snapshot that the
/// host passes to each executor step.
pub trait AccessButtonSignal {
    /// Whether there is any button activity in this step (spec view).
    spec fn spec_is_button_signal(&self) -> bool;

    /// Returns true if there is any button activity.
    fn is_button_signal(&self) -> (r: bool)
        ensures
            r == self.spec_is_button_signal(),
    ;
}

/// Access to the low level button state (each button can be pressed or
/// not), read from the signals snapshot that the host passes to each
/// executor step.
pub trait AccessButtonState {
    /// The bitmask type telling us which buttons are pressed.
    type ButtonFlags;

    /// The bitmask of pressed buttons in this step (spec view).
    spec fn spec_button_flags(&self) -> Self::ButtonFlags;

    /// Returns a bitmask telling us which buttons are pressed.
    fn get_button_flags(&self) -> (r: Self::ButtonFlags)
        ensures
            r == self.spec_button_flags(),
    ;
}

/// The capabilities the button processor needs of a set of button flags:
/// an emptiness test, a subset test, and equality. The `same_as` method
/// stands in for the `PartialEq` bound such a flag type would normally
/// carry, stated directly against structural equality so that contracts
/// can reason about it.
pub trait ButtonFlagsTrait: Sized + Copy {
    /// Whether no button at all is pressed (spec view).
    spec fn spec_is_none(&self) -> bool;

    /// Whether every button pressed in `other` is also pressed in `self`
    /// (spec view).
    spec fn spec_contains(&self, other: Self) -> bool;

    /// Returns true if no button at all is pressed.
    fn is_none(&self) -> (r: bool)
        ensures
            r == self.spec_is_none(),
    ;

    /// Returns true if every button pressed in `other` is also pressed in
    /// `self`.
    fn contains(&self, other: Self) -> (r: bool)
        ensures
            r == self.spec_contains(other),
    ;

    /// Returns true if the two flag sets are equal.
    fn same_as(&self, other: Self) -> (r: bool)
        ensures
            r == (*self == other),
    ;
}

/// The events distinguished by the high level button processor.
///
/// The generic parameter `F` represents the "button flags", i.e., the raw
/// on/off state of each button.
#[derive(Copy, Clone, Debug, PartialEq, Eq)]
pub enum ButtonEvent<F> {
    /// No event in this scheduling quantum.
    NoEvent,
    /// Button (combination) pressed for the first time.
    Press(F),
    /// Button (combination) auto repeat event due to held button(s).
    Repeat(F),
    /// Button (combination) released.
    Release(F),
}

/// State memory of the high level button processor.
///
/// The generic parameter `F` represents the "button flags", i.e., the raw
/// on/off state of each button.
#[derive(Copy, Clone, Debug, PartialEq, Eq)]
pub enum ButtonState<F> {
    /// Certain button state transitions have no valid interpretation.
    /// Suppose several buttons have been pressed and now one is released.
    /// The state afterwards is `Invalid` and remains so until all buttons
    /// have been released and the state returns to `NoButtons`.
    Invalid,
    /// No buttons are pressed.
    NoButtons,
    /// Some buttons have been pressed.
    SomeButtons {
        /// the combination of buttons pressed
        button_flags: F,
        /// the instant since when this combination is present
        since: InstantMillis,
        /// the last time a `Repeat` event was issued
        last_repetition: Option<InstantMillis>,
    },
}

/// Configuration of the auto-repeat timing.
#[derive(Clone, Debug)]
pub struct ButtonProcessorOptions {
    /// after this many milliseconds, a first `Repeat` event is generated
    pub repetition_start_delay: DurationMillis,
    /// after this many milliseconds, another `Repeat` event is generated
    pub repetition_delay: DurationMillis,
}

impl Default for ButtonProcessorOptions {
    /// A first repeat after 750 ms, further repeats every 375 ms.
    fn default() -> (r: Self)
        ensures
            r.repetition_start_delay == 750,
            r.repetition_delay == 375,
    {
        Self { repetition_start_delay: 750, repetition_delay: 375 }
    }
}

/// Where the driving state machine suspended, i.e. what its next poll has
/// to do first. In the suspendable-computation reading, this is the
/// instruction pointer of the driver between two polls.
#[derive(Copy, Clone, Debug, PartialEq, Eq)]
pub enum ButtonPhase {
    /// Start a fresh processing iteration at the next poll. This is the
    /// initial phase, and the phase after a plain sleep or yield.
    RunNext,
    /// Suspended until a button signal arrives or the stop flag fires.
    WaitSignal,
    /// Suspended until a button signal arrives, the stop flag fires, or
    /// `timeout` milliseconds have passed since `since`.
    WaitTimeout {
        /// the instant when the wait began
        since: InstantMillis,
        /// the full wait duration measured from `since`
        timeout: DurationMillis,
    },
}

/// Everything one poll of the driving state machine decides: the event and
/// state cells afterwards, the phase to resume from, the delay request
/// raised during the poll (if any), and whether the driver has terminated.
pub struct ButtonDriveOutcome<F> {
    /// the event cell after the poll
    pub event: ButtonEvent<F>,
    /// the state cell after the poll
    pub state: ButtonState<F>,
    /// the phase the driver suspends in
    pub phase: ButtonPhase,
    /// the delay request raised during the poll, if any
    pub request: Option<DurationMillis>,
    /// whether the driver observed the stop flag and terminated
    pub done: bool,
}

/// One full processing iteration, entered with the event cell already
/// reset: reads the current flags against the current state and decides
/// the event, the next state, and how to suspend.
///
/// All differences of instants are taken in the wrapping arithmetic of
/// [`crate::milliseconds`], so the outcome is defined for every input;
/// the differences equal the true elapsed times as long as the caller
/// keeps true spans within the duration range.
pub open spec fn button_dispatch_spec<F: ButtonFlagsTrait>(
    options: ButtonProcessorOptions,
    state: ButtonState<F>,
    now: InstantMillis,
    flags: F,
) -> ButtonDriveOutcome<F> {
    match state {
        ButtonState::Invalid => {
            // Ignore all transitions to states with buttons pressed: after an
            // invalid state, the machine always passes through "no buttons down".
            ButtonDriveOutcome {
                event: ButtonEvent::NoEvent,
                state: if flags.spec_is_none() {
                    ButtonState::NoButtons
                } else {
                    ButtonState::Invalid
                },
                phase: ButtonPhase::WaitSignal,
                request: None,
                done: false,
            }
        },
        ButtonState::NoButtons => {
            if flags.spec_is_none() {
                // still no activity
                ButtonDriveOutcome {
                    event: ButtonEvent::NoEvent,
                    state: ButtonState::NoButtons,
                    phase: ButtonPhase::WaitSignal,
                    request: None,
                    done: false,
                }
            } else {
                // transition from no buttons pressed to some buttons pressed
                ButtonDriveOutcome {
                    event: ButtonEvent::Press(flags),
                    state: ButtonState::SomeButtons {
                        button_flags: flags,
                        since: now,
                        last_repetition: None,
                    },
                    phase: ButtonPhase::RunNext,
                    request: Some(options.repetition_start_delay),
                    done: false,
                }
            }
        },
        ButtonState::SomeButtons { button_flags: prev_flags, since, last_repetition } => {
            if flags == prev_flags {
                // buttons unchanged; a repetition event may be due. Whether a
                // repetition has already started decides the reference instant
                // and the delay for the next firing.
                let reference = match last_repetition {
                    Some(repetition_instant) => repetition_instant,
                    None => since,
                };
                let delay = match last_repetition {
                    Some(_) => options.repetition_delay,
                    None => options.repetition_start_delay,
                };
                let time_until_firing = wrapping_sub_millis(
                    delay,
                    wrapping_diff(now@, reference@),
                );
                if time_until_firing <= 0 {
                    // fire (once more)
                    ButtonDriveOutcome {
                        event: ButtonEvent::Repeat(flags),
                        state: ButtonState::SomeButtons {
                            button_flags: flags,
                            since,
                            last_repetition: Some(now),
                        },
                        phase: ButtonPhase::RunNext,
                        request: Some(options.repetition_delay),
                        done: false,
                    }
                } else {
                    // fire not just yet
                    ButtonDriveOutcome {
                        event: ButtonEvent::NoEvent,
                        state,
                        phase: ButtonPhase::WaitTimeout { since: now, timeout: time_until_firing },
                        request: Some(time_until_firing),
                        done: false,
                    }
                }
            } else if flags.spec_contains(prev_flags) {
                // more buttons than before; a valid transition, so a `Press`
                // event is produced and the hold time starts over
                ButtonDriveOutcome {
                    event: ButtonEvent::Press(flags),
                    state: ButtonState::SomeButtons {
                        button_flags: flags,
                        since: now,
                        last_repetition: None,
                    },
                    phase: ButtonPhase::RunNext,
                    request: Some(options.repetition_start_delay),
                    done: false,
                }
            } else if flags.spec_is_none() {
                // full release
                ButtonDriveOutcome {
                    event: ButtonEvent::Release(prev_flags),
                    state: ButtonState::NoButtons,
                    phase: ButtonPhase::RunNext,
                    request: None,
                    done: false,
                }
            } else {
                // some buttons were released, but not all: the state is
                // invalid until all buttons have been released
                ButtonDriveOutcome {
                    event: ButtonEvent::Release(prev_flags),
                    state: ButtonState::Invalid,
                    phase: ButtonPhase::RunNext,
                    request: None,
                    done: false,
                }
            }
        },
    }
}

/// One poll of the driving state machine: resume from the current phase
/// with the current readings, and either stay suspended, terminate on the
/// stop flag, or run one fresh dispatch iteration (which first resets the
/// event cell).
pub open spec fn button_drive_spec<F: ButtonFlagsTrait>(
    options: ButtonProcessorOptions,
    state: ButtonState<F>,
    event: ButtonEvent<F>,
    phase: ButtonPhase,
    now: InstantMillis,
    flags: F,
    signal: bool,
    stop: bool,
) -> ButtonDriveOutcome<F> {
    let unchanged = ButtonDriveOutcome { event, state, phase, request: None, done: false };
    let stopped = ButtonDriveOutcome { event, state, phase, request: None, done: true };
    let iteration = if stop {
        stopped
    } else {
        button_dispatch_spec(options, state, now, flags)
    };
    match phase {
        ButtonPhase::RunNext => iteration,
        ButtonPhase::WaitSignal => {
            if signal {
                iteration
            } else if stop {
                stopped
            } else {
                unchanged
            }
        },
        ButtonPhase::WaitTimeout { since, timeout } => {
            let time_left = wrapping_sub_millis(timeout, wrapping_diff(now@, since@));
            if signal || time_left <= 0 {
                iteration
            } else if stop {
                stopped
            } else {
                ButtonDriveOutcome { event, state, phase, request: Some(time_left), done: false }
            }
        },
    }
}

/// A task that runs alongside the button processor's driving state machine
/// and reads the processor's event and state cells on every poll.
///
/// This is the shape of the caller-supplied task handed to
/// [`ButtonProcessor::run`]: an ordinary [`Task`], except that every poll
/// also receives read access to the button processor it runs against.
pub trait ButtonClient<F, X>: Sized {
    /// The value the client produces when it completes.
    type Output;

    /// The exact relation one poll establishes between the client value
    /// and the scheduler before and after the call, given the button
    /// processor state it observed. Implementations override this with
    /// their precise transition.
    open spec fn poll_spec(
        pre: Self,
        pre_sched: MiniScheduler<X>,
        buttons: ButtonProcessor<F>,
        post: Self,
        post_sched: MiniScheduler<X>,
        r: TaskPoll<Self::Output>,
    ) -> bool {
        true
    }

    /// Makes one unit of progress. Must not be called again once it has
    /// returned [`TaskPoll::Ready`].
    fn poll(&mut self, sched: &mut MiniScheduler<X>, buttons: &ButtonProcessor<F>) -> (r: TaskPoll<
        Self::Output,
    >)
        ensures
            Self::poll_spec(*old(self), *old(sched), *buttons, *final(self), *final(sched), r),
            evolves_within_step(*old(sched), *final(sched)),
    ;
}

/// Law: holding a button combination unchanged fires a `Repeat` exactly
/// when the hold time reaches the configured threshold — the repetition
/// start delay measured from `since` while no repeat has fired yet, the
/// (typically shorter) repetition delay measured from the last repeat once
/// one has — and each firing records the current instant as the last
/// repetition and requests the repetition delay as the next wakeup. So a
/// combination held long enough produces one `Repeat` once the start delay
/// has passed and further `Repeat`s at the repetition-delay cadence, and
/// none before; in between, no event shows.
///
/// The bounds keep the differences within the duration range, where the
/// wrapping arithmetic agrees with true elapsed times.
pub proof fn lemma_repeat_cadence<F: ButtonFlagsTrait>(
    options: ButtonProcessorOptions,
    flags: F,
    since: InstantMillis,
    last_repetition: Option<InstantMillis>,
    now: InstantMillis,
)
    requires
        0 <= options.repetition_start_delay,
        0 <= options.repetition_delay,
        wrapping_diff(now@, since@) >= 0,
        last_repetition matches Some(rep) ==> wrapping_diff(now@, rep@) >= 0,
    ensures
        ({
            let state = ButtonState::SomeButtons { button_flags: flags, since, last_repetition };
            let outcome = button_dispatch_spec(options, state, now, flags);
            let fires = match last_repetition {
                None => wrapping_diff(now@, since@) >= options.repetition_start_delay,
                Some(rep) => wrapping_diff(now@, rep@) >= options.repetition_delay,
            };
            &&& outcome.event == (if fires {
                ButtonEvent::Repeat(flags)
            } else {
                ButtonEvent::<F>::NoEvent
            })
            &&& outcome.state == (if fires {
                ButtonState::SomeButtons { button_flags: flags, since, last_repetition: Some(now) }
            } else {
                state
            })
            &&& fires ==> outcome.request == Some(options.repetition_delay)
        }),
{
}

/// Law: a strict partial release — the flags now read differ from the held
/// combination, are not a superset of it, and are not empty — emits a
/// `Release` of the held combination and drives the state to `Invalid`.
pub proof fn lemma_partial_release_invalidates<F: ButtonFlagsTrait>(
    options: ButtonProcessorOptions,
    prev_flags: F,
    since: InstantMillis,
    last_repetition: Option<InstantMillis>,
    now: InstantMillis,
    flags: F,
)
    requires
        flags != prev_flags,
        !flags.spec_contains(prev_flags),
        !flags.spec_is_none(),
    ensures
        ({
            let state = ButtonState::SomeButtons { button_flags: prev_flags, since, last_repetition };
            let outcome = button_dispatch_spec(options, state, now, flags);
            &&& outcome.event == ButtonEvent::Release(prev_flags)
            &&& outcome.state == ButtonState::<F>::Invalid
        }),
{
}

/// Law: in the `Invalid` state the processor never emits an event, and it
/// leaves `Invalid` only when the flags read fully empty — so after an
/// ambiguous partial release, no `Press` can occur until all buttons have
/// been released first.
pub proof fn lemma_invalid_suppresses_events<F: ButtonFlagsTrait>(
    options: ButtonProcessorOptions,
    now: InstantMillis,
    flags: F,
)
    ensures
        ({
            let outcome = button_dispatch_spec(options, ButtonState::<F>::Invalid, now, flags);
            &&& outcome.event == ButtonEvent::<F>::NoEvent
            &&& outcome.state == (if flags.spec_is_none() {
                ButtonState::<F>::NoButtons
            } else {
                ButtonState::<F>::Invalid
            })
        }),
{
}

/// The button processor's cells: the transient event of the current
/// scheduling quantum, the queryable state, and the timing options.
pub struct ButtonProcessor<F> {
    event: ButtonEvent<F>,
    state: ButtonState<F>,
    options: ButtonProcessorOptions,
}

impl<F> ButtonProcessor<F> {
    /// The current high level event.
    pub closed spec fn spec_event(&self) -> ButtonEvent<F> {
        self.event
    }

    /// The current processor state.
    pub closed spec fn spec_state(&self) -> ButtonState<F> {
        self.state
    }

    /// The configured auto-repeat timing.
    pub closed spec fn spec_options(&self) -> ButtonProcessorOptions {
        self.options
    }
}

impl<F: ButtonFlagsTrait> ButtonProcessor<F> {
    /// Creates the button processor.
    pub fn new(options: ButtonProcessorOptions) -> (r: Self)
        ensures
            r.spec_event() == ButtonEvent::<F>::NoEvent,
            r.spec_state() == ButtonState::<F>::Invalid,
            r.spec_options() == options,
    {
        ButtonProcessor { event: ButtonEvent::NoEvent, state: ButtonState::Invalid, options }
    }

    /// Gets the current high level event, or [`ButtonEvent::NoEvent`] if there
    /// is none.
    ///
    /// There is no event queue. An event stays set for exactly one
    /// scheduling quantum: check for it each time the surrounding task is
    /// polled, or it is lost.
    pub fn event(&self) -> (r: ButtonEvent<F>)
        ensures
            r == self.spec_event(),
    {
        self.event
    }

    /// Gets the state of the button processor, queryable at any time
    /// in between events — for example to react when the user holds a
    /// button combination down longer than a certain time.
    pub fn state(&self) -> (r: ButtonState<F>)
        ensures
            r == self.spec_state(),
    {
        self.state
    }

    /// One poll of the driving state machine, against the raw readings of
    /// the current step: the flags, whether there was button activity, and
    /// whether the surrounding [`ButtonProcessorRun`] has raised the stop
    /// flag. Updates the event and state cells, the suspension phase, and
    /// the scheduler's delay request, exactly as [`button_drive_spec`]
    /// says, and returns whether the driver has terminated.
    pub fn drive<X>(
        &mut self,
        phase: &mut ButtonPhase,
        sched: &mut MiniScheduler<X>,
        flags: F,
        signal: bool,
        stop: bool,
    ) -> (done: bool)
        ensures
            ({
                let outcome = button_drive_spec(
                    old(self).spec_options(),
                    old(self).spec_state(),
                    old(self).spec_event(),
                    *old(phase),
                    old(sched).spec_instant(),
                    flags,
                    signal,
                    stop,
                );
                &&& final(self).spec_event() == outcome.event
                &&& final(self).spec_state() == outcome.state
                &&& final(self).spec_options() == old(self).spec_options()
                &&& *final(phase) == outcome.phase
                &&& done == outcome.done
                &&& final(sched).spec_requests() == (match outcome.request {
                    Some(d) => old(sched).spec_requests().push(d),
                    None => old(sched).spec_requests(),
                })
                &&& evolves_within_step(*old(sched), *final(sched))
            }),
    {
        let run_iteration = match *phase {
            ButtonPhase::RunNext => true,
            ButtonPhase::WaitSignal => {
                if signal {
                    true
                } else {
                    return stop;
                }
            },
            ButtonPhase::WaitTimeout { since, timeout } => {
                let time_left = timeout.wrapping_sub(sched.get_instant().sub(since));
                if signal || time_left <= 0 {
                    true
                } else if stop {
                    return true;
                } else {
                    sched.set_delay_request(crate::executor::DurationWrapper::wrap(time_left));
                    return false;
                }
            },
        };
        if stop {
            return true;
        }
        self.event = ButtonEvent::NoEvent;
        self.dispatch(phase, sched, flags);
        false
    }

    /// One fresh processing iteration, entered with the event cell already
    /// reset: the executable counterpart of [`button_dispatch_spec`].
    fn dispatch<X>(&mut self, phase: &mut ButtonPhase, sched: &mut MiniScheduler<X>, flags: F)
        requires
            old(self).spec_event() == ButtonEvent::<F>::NoEvent,
        ensures
            ({
                let outcome = button_dispatch_spec(
                    old(self).spec_options(),
                    old(self).spec_state(),
                    old(sched).spec_instant(),
                    flags,
                );
                &&& final(self).spec_event() == outcome.event
                &&& final(self).spec_state() == outcome.state
                &&& final(self).spec_options() == old(self).spec_options()
                &&& *final(phase) == outcome.phase
                &&& !outcome.done
                &&& final(sched).spec_requests() == (match outcome.request {
                    Some(d) => old(sched).spec_requests().push(d),
                    None => old(sched).spec_requests(),
                })
                &&& evolves_within_step(*old(sched), *final(sched))
            }),
    {
        match self.state {
            ButtonState::Invalid => {
                if flags.is_none() {
                    self.state = ButtonState::NoButtons;
                }
                *phase = ButtonPhase::WaitSignal;
            },
            ButtonState::NoButtons => {
                if flags.is_none() {
                    *phase = ButtonPhase::WaitSignal;
                } else {
                    self.event = ButtonEvent::Press(flags);
                    self.state = ButtonState::SomeButtons {
                        button_flags: flags,
                        since: sched.get_instant(),
                        last_repetition: None,
                    };
                    sched.set_delay_request(
                        crate::executor::DurationWrapper::wrap(self.options.repetition_start_delay),
                    );
                    *phase = ButtonPhase::RunNext;
                }
            },
            ButtonState::SomeButtons { button_flags: prev_flags, since, last_repetition } => {
                if flags.same_as(prev_flags) {
                    let now = sched.get_instant();
                    let (reference, delay) = match last_repetition {
                        Some(repetition_instant) => (repetition_instant, self.options.repetition_delay),
                        None => (since, self.options.repetition_start_delay),
                    };
                    let time_until_firing = delay.wrapping_sub(now.sub(reference));
                    if time_until_firing <= 0 {
                        self.event = ButtonEvent::Repeat(flags);
                        self.state = ButtonState::SomeButtons {
                            button_flags: flags,
                            since,
                            last_repetition: Some(now),
                        };
                        sched.set_delay_request(
                            crate::executor::DurationWrapper::wrap(self.options.repetition_delay),
                        );
                        *phase = ButtonPhase::RunNext;
                    } else {
                        sched.set_delay_request(
                            crate::executor::DurationWrapper::wrap(time_until_firing),
                        );
                        *phase = ButtonPhase::WaitTimeout { since: now, timeout: time_until_firing };
                    }
                } else if flags.contains(prev_flags) {
                    self.event = ButtonEvent::Press(flags);
                    self.state = ButtonState::SomeButtons {
                        button_flags: flags,
                        since: sched.get_instant(),
                        last_repetition: None,
                    };
                    sched.set_delay_request(
                        crate::executor::DurationWrapper::wrap(self.options.repetition_start_delay),
                    );
                    *phase = ButtonPhase::RunNext;
                } else if flags.is_none() {
                    self.event = ButtonEvent::Release(prev_flags);
                    self.state = ButtonState::NoButtons;
                    *phase = ButtonPhase::RunNext;
                } else {
                    self.event = ButtonEvent::Release(prev_flags);
                    self.state = ButtonState::Invalid;
                    *phase = ButtonPhase::RunNext;
                }
            },
        }
    }
}

/// Waits for a button press or repeat event, up to a given timeout
/// measured from the scheduler's current instant.
///
/// The returned client task completes with nothing: check the button
/// processor state afterwards to find out why it terminated.
pub fn wait_button_press_or_timeout<X>(sys: &MiniScheduler<X>, timeout: DurationMillis) -> (r:
    WaitButtonPressOrTimeout)
    ensures
        r.spec_timer().spec_start_time() == sys.spec_instant(),
        r.spec_timer().spec_duration() == timeout,
        !r.spec_started(),
{
    WaitButtonPressOrTimeout { timer: Timer::new(sys, timeout), started: false }
}

/// The client task returned by [`wait_button_press_or_timeout`].
pub struct WaitButtonPressOrTimeout {
    timer: Timer,
    started: bool,
}

impl WaitButtonPressOrTimeout {
    /// The timer bounding the wait.
    pub closed spec fn spec_timer(&self) -> Timer {
        self.timer
    }

    /// Whether the first poll is over; events are only inspected from the
    /// second poll on, after the wait has suspended once.
    pub closed spec fn spec_started(&self) -> bool {
        self.started
    }
}

impl<F: ButtonFlagsTrait, X> ButtonClient<F, X> for WaitButtonPressOrTimeout {
    type Output = ();

    /// The first poll only starts the bounded wait. Every later poll
    /// completes on a press or repeat event; otherwise the wait continues
    /// until the timeout has passed, requesting the remaining time as the
    /// delay while some is left.
    open spec fn poll_spec(
        pre: Self,
        pre_sched: MiniScheduler<X>,
        buttons: ButtonProcessor<F>,
        post: Self,
        post_sched: MiniScheduler<X>,
        r: TaskPoll<()>,
    ) -> bool {
        let pressed = buttons.spec_event() matches ButtonEvent::Press(_)
            || buttons.spec_event() matches ButtonEvent::Repeat(_);
        let time_left = pre.spec_timer().spec_time_left(pre_sched.spec_instant());
        &&& post.spec_timer() == pre.spec_timer()
        &&& post.spec_started()
        &&& if pre.spec_started() && pressed {
            r == TaskPoll::Ready(()) && post_sched == pre_sched
        } else if time_left > 0 {
            &&& r == TaskPoll::<()>::Pending
            &&& post_sched.spec_requests() == pre_sched.spec_requests().push(time_left)
        } else {
            r == TaskPoll::Ready(()) && post_sched == pre_sched
        }
    }

    fn poll(&mut self, sched: &mut MiniScheduler<X>, buttons: &ButtonProcessor<F>) -> (r: TaskPoll<
        (),
    >) {
        if self.started {
            match buttons.event() {
                ButtonEvent::Press(_) | ButtonEvent::Repeat(_) => {
                    return TaskPoll::Ready(());
                },
                _ => {},
            }
        }
        self.started = true;
        if self.timer.yield_if_time_left(sched) {
            TaskPoll::Pending
        } else {
            TaskPoll::Ready(())
        }
    }
}

impl<F: ButtonFlagsTrait> ButtonProcessor<F> {
    /// Runs the button processor alongside a caller-supplied task.
    ///
    /// The returned task pairs the processor's driving state machine with
    /// `client`, exactly as [`crate::basic_futures::join2`] would: on every
    /// poll, the driver runs first and updates the event and state cells,
    /// then the client runs and reads them. When the client completes, a
    /// stop flag is raised; the driver observes it at its next check and
    /// terminates, so the processor does not outlive its caller. The
    /// combined task completes with the client's value once both are done.
    pub fn run<X, C: ButtonClient<F, X>>(self, client: C) -> (r: ButtonProcessorRun<
        F,
        C,
        C::Output,
    >)
        ensures
            r.spec_processor() == self,
            r.spec_phase() == ButtonPhase::RunNext,
            !r.spec_driver_done(),
            !r.spec_stop(),
            r.spec_client() == client,
            r.spec_retval() is None,
    {
        ButtonProcessorRun {
            processor: self,
            phase: ButtonPhase::RunNext,
            driver_done: false,
            stop: false,
            client,
            retval: None,
        }
    }
}

/// The task returned by [`ButtonProcessor::run`]: the processor's driving
/// state machine joined with the caller's client task.
pub struct ButtonProcessorRun<F, C, T> {
    processor: ButtonProcessor<F>,
    phase: ButtonPhase,
    driver_done: bool,
    stop: bool,
    client: C,
    retval: Option<T>,
}

impl<F, C, T> ButtonProcessorRun<F, C, T> {
    /// The underlying button processor.
    pub closed spec fn spec_processor(&self) -> ButtonProcessor<F> {
        self.processor
    }

    /// The driver's suspension phase.
    pub closed spec fn spec_phase(&self) -> ButtonPhase {
        self.phase
    }

    /// Whether the driving state machine has terminated.
    pub closed spec fn spec_driver_done(&self) -> bool {
        self.driver_done
    }

    /// The cooperative stop flag, raised once the client has completed.
    pub closed spec fn spec_stop(&self) -> bool {
        self.stop
    }

    /// The client task.
    pub closed spec fn spec_client(&self) -> C {
        self.client
    }

    /// The stored client result, while the driver is still winding down.
    pub closed spec fn spec_retval(&self) -> Option<T> {
        self.retval
    }
}

/// What the client half of one [`ButtonProcessorRun`] poll does: a client
/// that has already completed is left untouched and does not run; one that
/// has not is polled exactly once against the processor cells the driver
/// just wrote, its result slot is filled exactly when that poll reported
/// ready, and the stop flag is raised at that same moment.
pub open spec fn run_client_branch<
    F: ButtonFlagsTrait,
    X: AccessButtonState<ButtonFlags = F> + AccessButtonSignal,
    C: ButtonClient<F, X, Output = T>,
    T,
>(
    pre_client: C,
    pre_val: Option<T>,
    pre_stop: bool,
    mid_sched: MiniScheduler<X>,
    buttons: ButtonProcessor<F>,
    post_client: C,
    post_val: Option<T>,
    post_stop: bool,
    post_sched: MiniScheduler<X>,
) -> bool {
    if pre_val is Some {
        &&& post_client == pre_client
        &&& post_val == pre_val
        &&& post_sched == mid_sched
        &&& post_stop == pre_stop
    } else {
        &&& exists|cr: TaskPoll<T>|
            {
                &&& #[trigger] C::poll_spec(
                    pre_client,
                    mid_sched,
                    buttons,
                    post_client,
                    post_sched,
                    cr,
                )
                &&& post_val == (match cr {
                    TaskPoll::Ready(v) => Some(v),
                    TaskPoll::Pending => None::<T>,
                })
            }
        &&& post_stop == (pre_stop || post_val is Some)
    }
}

/// One outer poll of [`ButtonProcessorRun`], spelled out. The driver runs
/// strictly before the client (with `mid_sched` the scheduler state in
/// between): unless it has already terminated, it makes one
/// [`button_drive_spec`] step against the flags and signal read from the
/// step's signals snapshot and the current stop flag. Then, unless the
/// client has already completed, the client makes one poll step, observing
/// the processor cells the driver just wrote; the stop flag is raised
/// exactly when the client completes. The combined task reports ready with
/// the client's value once the driver has terminated as well.
pub open spec fn run_poll_parts<
    F: ButtonFlagsTrait,
    X: AccessButtonState<ButtonFlags = F> + AccessButtonSignal,
    C: ButtonClient<F, X, Output = T>,
    T,
>(
    pre: ButtonProcessorRun<F, C, T>,
    pre_sched: MiniScheduler<X>,
    post: ButtonProcessorRun<F, C, T>,
    post_sched: MiniScheduler<X>,
    r: TaskPoll<T>,
    mid_sched: MiniScheduler<X>,
    client_val: Option<T>,
) -> bool {
    let flags = pre_sched.spec_signals().spec_button_flags();
    let signal = pre_sched.spec_signals().spec_is_button_signal();
    let outcome = button_drive_spec(
        pre.spec_processor().spec_options(),
        pre.spec_processor().spec_state(),
        pre.spec_processor().spec_event(),
        pre.spec_phase(),
        pre_sched.spec_instant(),
        flags,
        signal,
        pre.spec_stop(),
    );
    &&& post.spec_processor().spec_options() == pre.spec_processor().spec_options()
    &&& if pre.spec_driver_done() {
        &&& post.spec_processor() == pre.spec_processor()
        &&& post.spec_phase() == pre.spec_phase()
        &&& post.spec_driver_done()
        &&& mid_sched == pre_sched
    } else {
        &&& post.spec_processor().spec_event() == outcome.event
        &&& post.spec_processor().spec_state() == outcome.state
        &&& post.spec_phase() == outcome.phase
        &&& post.spec_driver_done() == outcome.done
        &&& mid_sched.spec_instant() == pre_sched.spec_instant()
        &&& mid_sched.spec_signals() == pre_sched.spec_signals()
        &&& mid_sched.spec_requests() == (match outcome.request {
            Some(d) => pre_sched.spec_requests().push(d),
            None => pre_sched.spec_requests(),
        })
    }
    &&& run_client_branch(
        pre.spec_client(),
        pre.spec_retval(),
        pre.spec_stop(),
        mid_sched,
        post.spec_processor(),
        post.spec_client(),
        client_val,
        post.spec_stop(),
        post_sched,
    )
    &&& match r {
        TaskPoll::Ready(v) => {
            &&& client_val == Some(v)
            &&& post.spec_driver_done()
            &&& post.spec_retval() is None
        },
        TaskPoll::Pending => {
            &&& post.spec_retval() == client_val
            &&& (!post.spec_driver_done() || client_val is None)
        },
    }
}

impl<
    F: ButtonFlagsTrait,
    X: AccessButtonState<ButtonFlags = F> + AccessButtonSignal + Copy,
    C: ButtonClient<F, X, Output = T>,
    T,
> Task<X> for ButtonProcessorRun<F, C, T> {
    type Output = T;

    /// One outer poll runs one driver step and then one client step, as
    /// [`run_poll_parts`] spells out.
    open spec fn poll_spec(
        pre: Self,
        pre_sched: MiniScheduler<X>,
        post: Self,
        post_sched: MiniScheduler<X>,
        r: TaskPoll<T>,
    ) -> bool {
        exists|mid_sched: MiniScheduler<X>, client_val: Option<T>|
            #[trigger] run_poll_parts(pre, pre_sched, post, post_sched, r, mid_sched, client_val)
    }

    fn poll(&mut self, sched: &mut MiniScheduler<X>) -> (r: TaskPoll<T>) {
        let ghost pre = *self;
        let ghost pre_sched = *sched;
        let signals = sched.get_executor_signals();
        let flags = signals.get_button_flags();
        let signal = signals.is_button_signal();
        if !self.driver_done {
            let done = self.processor.drive(&mut self.phase, sched, flags, signal, self.stop);
            if done {
                self.driver_done = true;
            }
        }
        let ghost mid_sched = *sched;
        let ghost mut client_poll: TaskPoll<T> = TaskPoll::Pending;
        if self.retval.is_none() {
            let res = self.client.poll(sched, &self.processor);
            proof {
                client_poll = res;
            }
            if let TaskPoll::Ready(v) = res {
                self.retval = Some(v);
                self.stop = true;
            }
        }
        let ghost client_val = self.retval;
        proof {
            if pre.spec_retval() is None {
                assert(C::poll_spec(
                    pre.client,
                    mid_sched,
                    self.processor,
                    self.client,
                    *sched,
                    client_poll,
                ));
            }
            assert(run_client_branch(
                pre.client,
                pre.retval,
                pre.stop,
                mid_sched,
                self.processor,
                self.client,
                client_val,
                self.stop,
                *sched,
            ));
        }
        if self.driver_done && self.retval.is_some() {
            let v = self.retval.take().unwrap();
            let r = TaskPoll::Ready(v);
            proof {
                assert(run_poll_parts(pre, pre_sched, *self, *sched, r, mid_sched, client_val));
            }
            r
        } else {
            let r = TaskPoll::<T>::Pending;
            proof {
                assert(run_poll_parts(pre, pre_sched, *self, *sched, r, mid_sched, client_val));
            }
            r
        }
    }
}

} // verus!
