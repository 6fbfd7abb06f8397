//! The concrete hardware-facing data of the relay/timer device: the button
//! and signal bitflags, the real-time-clock value, and the output timer
//! settings, together with the computations on them. The host glue reads
//! the hardware and hands these plain values in; everything that decides
//! something stands here.

use vstd::prelude::*;

use crate::button_processor::{
    AccessButtonSignal, AccessButtonState, ButtonClient, ButtonEvent, ButtonFlagsTrait,
    ButtonProcessor,
};
use crate::executor::{MiniScheduler, TaskPoll};
use crate::milliseconds::{
    wrapping_diff, wrapping_offset, wrapping_sub_millis, DurationMillis, InstantMillis,
};
use crate::timer::Timer;

verus! {

/// Sometimes additional functionality becomes available if a button is
/// held down for the number of milliseconds defined here.
pub const BUTTON_HOLD_DURATION: DurationMillis = 2000;

/// The number of buttons.
pub const NUM_BUTTONS: u32 = 4;

/// The number of output relays.
pub const NUM_RELAYS: usize = 4;

/// The number of scheduled entries per relay.
pub const MAX_SCHEDULED_ENTRIES: usize = 3;

/// The buttons and their meaning, as a bitmask: use the constructors and
/// [`ButtonFlags::union`] to build combinations.
#[derive(Copy, Clone, Debug, PartialEq, Eq, Structural)]
pub struct ButtonFlags {
    bits: u8,
}

impl ButtonFlags {
    /// The raw bitmask.
    pub closed spec fn spec_bits(&self) -> u8 {
        self.bits
    }

    /// No button at all.
    pub fn none() -> (r: Self)
        ensures
            r.spec_bits() == 0,
    {
        ButtonFlags { bits: 0 }
    }

    /// Back / exit / cancel.
    pub fn escape() -> (r: Self)
        ensures
            r.spec_bits() == 1,
    {
        ButtonFlags { bits: 1 }
    }

    /// Previous item in the list of choices.
    pub fn prev() -> (r: Self)
        ensures
            r.spec_bits() == 2,
    {
        ButtonFlags { bits: 2 }
    }

    /// Next item in the list of choices.
    pub fn next() -> (r: Self)
        ensures
            r.spec_bits() == 4,
    {
        ButtonFlags { bits: 4 }
    }

    /// Open menu / change value / confirm.
    pub fn enter() -> (r: Self)
        ensures
            r.spec_bits() == 8,
    {
        ButtonFlags { bits: 8 }
    }

    /// The combination of the buttons of `self` and `other`.
    pub fn union(self, other: Self) -> (r: Self)
        ensures
            r.spec_bits() == (self.spec_bits() | other.spec_bits()),
    {
        ButtonFlags { bits: self.bits | other.bits }
    }

    /// The raw bitmask.
    pub fn bits(&self) -> (r: u8)
        ensures
            r == self.spec_bits(),
    {
        self.bits
    }
}

impl ButtonFlagsTrait for ButtonFlags {
    /// No button is pressed exactly when the bitmask is zero.
    open spec fn spec_is_none(&self) -> bool {
        self.spec_bits() == 0
    }

    /// Containment is bitmask inclusion.
    open spec fn spec_contains(&self, other: Self) -> bool {
        (self.spec_bits() & other.spec_bits()) == other.spec_bits()
    }

    fn is_none(&self) -> (r: bool) {
        self.bits == 0
    }

    fn contains(&self, other: Self) -> (r: bool) {
        (self.bits & other.bits) == other.bits
    }

    fn same_as(&self, other: Self) -> (r: bool) {
        self.bits == other.bits
    }
}

/// The kinds of events a step may announce. Right now there is only one
/// kind. Spurious signals are allowed: a set `Button` flag without a real
/// change of button state is harmless. The converse is not: if the
/// physical button state changes without the flag being set, the change
/// may be overlooked.
#[derive(Copy, Clone, Debug, PartialEq, Eq, Structural)]
pub struct SignalFlags {
    bits: u8,
}

impl SignalFlags {
    /// The raw bitmask.
    pub closed spec fn spec_bits(&self) -> u8 {
        self.bits
    }

    /// No signal.
    pub fn none() -> (r: Self)
        ensures
            r.spec_bits() == 0,
    {
        SignalFlags { bits: 0 }
    }

    /// Set this flag if the state of any of the buttons changes.
    pub fn button() -> (r: Self)
        ensures
            r.spec_bits() == 1,
    {
        SignalFlags { bits: 1 }
    }

    /// Whether any of the signals set in `other` is set in `self`.
    pub open spec fn spec_intersects(&self, other: Self) -> bool {
        (self.spec_bits() & other.spec_bits()) != 0
    }

    /// Returns true if any of the signals set in `other` is set in `self`.
    pub fn intersects(&self, other: Self) -> (r: bool)
        ensures
            r == self.spec_intersects(other),
    {
        (self.bits & other.bits) != 0
    }
}

impl Default for SignalFlags {
    /// No signal.
    fn default() -> (r: Self)
        ensures
            r.spec_bits() == 0,
    {
        SignalFlags { bits: 0 }
    }
}

/// One step's snapshot of the hardware inputs, passed by the host as the
/// executor signals: the signal flags that triggered the step and the raw
/// button flags read at that moment.
#[derive(Copy, Clone, Debug, PartialEq, Eq, Structural)]
pub struct SystemInputs {
    /// what kind of event triggered this step
    pub signals: SignalFlags,
    /// the raw button state read for this step
    pub buttons: ButtonFlags,
}

impl Default for SystemInputs {
    /// No signal and no button pressed.
    fn default() -> (r: Self)
        ensures
            r.signals.spec_bits() == 0,
            r.buttons.spec_bits() == 0,
    {
        SystemInputs { signals: SignalFlags { bits: 0 }, buttons: ButtonFlags { bits: 0 } }
    }
}

impl AccessButtonSignal for SystemInputs {
    /// There is button activity when the `Button` signal flag is set.
    open spec fn spec_is_button_signal(&self) -> bool {
        self.signals.spec_bits() & 1 == 1
    }

    fn is_button_signal(&self) -> (r: bool) {
        self.signals.bits & 1 == 1
    }
}

impl AccessButtonState for SystemInputs {
    type ButtonFlags = ButtonFlags;

    /// The raw button flags of this step.
    open spec fn spec_button_flags(&self) -> ButtonFlags {
        self.buttons
    }

    fn get_button_flags(&self) -> (r: ButtonFlags) {
        self.buttons
    }
}

/// Time of day in human readable notation, with second resolution.
#[derive(Copy, Clone, Debug, PartialEq, Eq, Structural)]
pub struct RtcTime {
    /// valid numbers restricted to 0..23
    pub hour: u8,
    /// valid numbers restricted to 0..59
    pub minute: u8,
    /// valid numbers restricted to 0..59
    pub second: u8,
}

/// Converts a time of day to the number of seconds since midnight.
pub fn daytime_to_seconds(hour: u8, minute: u8, second: u8) -> (r: i32)
    ensures
        r == hour * 3600 + minute * 60 + second,
{
    (hour as i32) * 3600 + (minute as i32) * 60 + (second as i32)
}

/// Converts a nonnegative number of seconds to (hour, minute, second) of
/// the day, wrapping around at midnight.
pub fn seconds_to_daytime(seconds: i32) -> (r: (u8, u8, u8))
    requires
        0 <= seconds,
    ensures
        r.0 == (seconds / 3600) % 24,
        r.1 == (seconds / 60) % 60,
        r.2 == seconds % 60,
{
    let second = seconds % 60;
    let minute = seconds / 60;
    let hour = minute / 60;
    let minute = minute % 60;
    let hour = hour % 24;
    proof {
        vstd::arithmetic::div_mod::lemma_div_denominator(seconds as int, 60, 60);
    }
    (hour as u8, minute as u8, second as u8)
}

/// Waits for a button press or selected repeat event, up to a given
/// timeout measured from the scheduler's current instant.
///
/// Unlike [`crate::button_processor::wait_button_press_or_timeout`], only
/// the repeat events of exactly the `prev` and `next` buttons are
/// recognized; other repeats are ignored. The returned client task
/// completes with nothing: check the button processor state afterwards to
/// find out why it terminated.
pub fn wait_button_press2_or_timeout<X>(sys: &MiniScheduler<X>, timeout: DurationMillis) -> (r:
    WaitButtonPress2OrTimeout)
    ensures
        r.spec_timer().spec_start_time() == sys.spec_instant(),
        r.spec_timer().spec_duration() == timeout,
        !r.spec_started(),
{
    WaitButtonPress2OrTimeout { timer: Timer::new(sys, timeout), started: false }
}

/// The client task returned by [`wait_button_press2_or_timeout`].
pub struct WaitButtonPress2OrTimeout {
    timer: Timer,
    started: bool,
}

impl WaitButtonPress2OrTimeout {
    /// The timer bounding the wait.
    pub closed spec fn spec_timer(&self) -> Timer {
        self.timer
    }

    /// Whether the first poll is over; events are only inspected from the
    /// second poll on, after the wait has suspended once.
    pub closed spec fn spec_started(&self) -> bool {
        self.started
    }

    /// The events this wait ends on: any press, or an auto repeat of
    /// exactly the `prev` or exactly the `next` button.
    pub open spec fn spec_wanted(event: ButtonEvent<ButtonFlags>) -> bool {
        match event {
            ButtonEvent::Press(_) => true,
            ButtonEvent::Repeat(flags) => flags.spec_bits() == 2 || flags.spec_bits() == 4,
            _ => false,
        }
    }
}

impl<X> ButtonClient<ButtonFlags, X> for WaitButtonPress2OrTimeout {
    type Output = ();

    /// The first poll only starts the bounded wait. Every later poll
    /// completes on one of the wanted events; otherwise the wait continues
    /// until the timeout has passed, requesting the remaining time as the
    /// delay while some is left.
    open spec fn poll_spec(
        pre: Self,
        pre_sched: MiniScheduler<X>,
        buttons: ButtonProcessor<ButtonFlags>,
        post: Self,
        post_sched: MiniScheduler<X>,
        r: TaskPoll<()>,
    ) -> bool {
        let time_left = pre.spec_timer().spec_time_left(pre_sched.spec_instant());
        &&& post.spec_timer() == pre.spec_timer()
        &&& post.spec_started()
        &&& if pre.spec_started() && Self::spec_wanted(buttons.spec_event()) {
            r == TaskPoll::Ready(()) && post_sched == pre_sched
        } else if time_left > 0 {
            &&& r == TaskPoll::<()>::Pending
            &&& post_sched.spec_requests() == pre_sched.spec_requests().push(time_left)
        } else {
            r == TaskPoll::Ready(()) && post_sched == pre_sched
        }
    }

    fn poll(&mut self, sched: &mut MiniScheduler<X>, buttons: &ButtonProcessor<ButtonFlags>) -> (r:
        TaskPoll<()>) {
        if self.started {
            let wanted = match buttons.event() {
                ButtonEvent::Press(_) => true,
                ButtonEvent::Repeat(flags) => {
                    flags.same_as(ButtonFlags::prev()) || flags.same_as(ButtonFlags::next())
                },
                _ => false,
            };
            if wanted {
                return TaskPoll::Ready(());
            }
        }
        self.started = true;
        if self.timer.yield_if_time_left(sched) {
            TaskPoll::Pending
        } else {
            TaskPoll::Ready(())
        }
    }
}

/// Setting for timers starting immediately.
#[derive(Debug, Clone, Copy)]
pub struct ImmediateOutEntry {
    /// a time stamp when the timer was set
    pub start: InstantMillis,
    /// the selected duration
    pub duration: DurationMillis,
}

/// Setting for scheduled timers.
#[derive(Debug, Clone, Copy)]
pub struct ScheduledOutEntry {
    /// hour of the specified daily start time
    pub start_hour: u8,
    /// minute of the specified daily start time
    pub start_minute: u8,
    /// specified duration
    pub duration: DurationMillis,
}

impl Default for ScheduledOutEntry {
    /// Midnight, with a zero duration (which means: not active).
    fn default() -> (r: Self)
        ensures
            r.start_hour == 0,
            r.start_minute == 0,
            r.duration == 0,
    {
        ScheduledOutEntry { start_hour: 0, start_minute: 0, duration: 0 }
    }
}

/// Main structure containing the current settings.
#[derive(Debug, Clone)]
pub struct Settings {
    /// timers starting immediately
    pub immediate_out: [Option<ImmediateOutEntry>; NUM_RELAYS],
    /// timers starting daily on a scheduled time
    pub scheduled_out: [[ScheduledOutEntry; MAX_SCHEDULED_ENTRIES]; NUM_RELAYS],
}

/// The remaining running time of an immediate timer entry at the instant
/// `now`, in the wrapping arithmetic of [`crate::milliseconds`]: its
/// duration minus the time passed since it was set.
pub open spec fn spec_entry_time_left(entry: ImmediateOutEntry, now: InstantMillis) -> DurationMillis {
    wrapping_sub_millis(entry.duration, wrapping_diff(now@, entry.start@))
}

/// An immediate timer entry rebased to the instant `now`: an entry whose
/// remaining time has run out becomes absent; one that is still running is
/// replaced by an entry starting at `now` with the remaining time as its
/// duration. An absent entry stays absent.
pub open spec fn spec_normalized_entry(
    entry: Option<ImmediateOutEntry>,
    now: InstantMillis,
) -> Option<ImmediateOutEntry> {
    match entry {
        None => None,
        Some(e) => {
            if spec_entry_time_left(e, now) <= 0 {
                None
            } else {
                Some(ImmediateOutEntry { start: now, duration: spec_entry_time_left(e, now) })
            }
        },
    }
}

/// Rebases an immediate timer entry to the instant `now`, as
/// [`spec_normalized_entry`] says.
pub fn normalize_immediate_out_entry(entry: &mut Option<ImmediateOutEntry>, now: InstantMillis)
    ensures
        *final(entry) == spec_normalized_entry(*old(entry), now),
{
    let (start, duration) = match entry {
        None => {
            return ;
        },
        Some(e) => (e.start, e.duration),
    };
    let time_left = duration.wrapping_sub(now.sub(start));
    if time_left <= 0 {
        *entry = None;
    } else {
        *entry = Some(ImmediateOutEntry { start: now, duration: time_left });
    }
}

/// Whether a scheduled entry starts running at this tick: it has a
/// positive duration and the real-time clock reads its scheduled hour and
/// minute.
pub open spec fn spec_slot_starts(entry: ScheduledOutEntry, rtc: RtcTime) -> bool {
    entry.duration > 0 && entry.start_hour == rtc.hour && entry.start_minute == rtc.minute
}

/// Whether a scheduled slot keeps its relay switched on during this tick:
/// a running slot (stop marker set) does until its stop instant passes; an
/// idle one does exactly when it starts now.
pub open spec fn spec_slot_active(
    stop: Option<InstantMillis>,
    entry: ScheduledOutEntry,
    now: InstantMillis,
    rtc: RtcTime,
) -> bool {
    match stop {
        Some(stop_instant) => wrapping_diff(stop_instant@, now@) >= 0,
        None => spec_slot_starts(entry, rtc),
    }
}

/// The slot's stop marker after this tick: kept while running, cleared at
/// the first tick past the stop instant, and set `duration` milliseconds
/// from now when the slot starts.
pub open spec fn spec_slot_marker_ok(
    stop: Option<InstantMillis>,
    entry: ScheduledOutEntry,
    now: InstantMillis,
    rtc: RtcTime,
    new_stop: Option<InstantMillis>,
) -> bool {
    match stop {
        Some(stop_instant) => new_stop == (if wrapping_diff(stop_instant@, now@) >= 0 {
            Some(stop_instant)
        } else {
            None::<InstantMillis>
        }),
        None => {
            if spec_slot_starts(entry, rtc) {
                new_stop matches Some(stop_instant) && stop_instant@ == wrapping_offset(
                    now@,
                    entry.duration,
                )
            } else {
                new_stop is None
            }
        },
    }
}

/// One decision step for one scheduled timer slot, taken once per watch
/// tick. A slot that is running (its stop marker is set) stays active
/// until its stop instant passes, and the marker is cleared at the first
/// tick after that. A slot that is not running starts — marking its stop
/// instant `duration` milliseconds from now and becoming active — exactly
/// when its entry has a positive duration and the real-time clock reads
/// its scheduled hour and minute. Returns the new stop marker and whether
/// the slot keeps its relay switched on during this tick.
pub fn scheduled_slot_step(
    stop: Option<InstantMillis>,
    entry: &ScheduledOutEntry,
    now: InstantMillis,
    rtc: &RtcTime,
) -> (r: (Option<InstantMillis>, bool))
    ensures
        r.1 == spec_slot_active(stop, *entry, now, *rtc),
        spec_slot_marker_ok(stop, *entry, now, *rtc, r.0),
{
    match stop {
        Some(stop_instant) => {
            let time_left = stop_instant.sub(now);
            if time_left >= 0 {
                (Some(stop_instant), true)
            } else {
                (None, false)
            }
        },
        None => {
            if entry.duration > 0 && entry.start_hour == rtc.hour && entry.start_minute
                == rtc.minute {
                (Some(now.add(entry.duration)), true)
            } else {
                (None, false)
            }
        },
    }
}

/// Whether a relay is switched on at this tick, given its immediate entry
/// and its scheduled slots before the tick: its immediate entry is still
/// running, or one of its scheduled slots keeps it on.
pub open spec fn spec_relay_on(
    entry: Option<ImmediateOutEntry>,
    stops: [Option<InstantMillis>; MAX_SCHEDULED_ENTRIES],
    slots: [ScheduledOutEntry; MAX_SCHEDULED_ENTRIES],
    now: InstantMillis,
    rtc: RtcTime,
) -> bool {
    ||| spec_normalized_entry(entry, now) is Some
    ||| exists|j: int|
        0 <= j < MAX_SCHEDULED_ENTRIES && spec_slot_active(stops@[j], slots@[j], now, rtc)
}

/// One tick of the output watcher's decisions, over all relays at once:
/// every immediate entry is rebased to `now` (clearing expired ones, see
/// [`spec_normalized_entry`]), every scheduled slot takes one
/// [`scheduled_slot_step`], and the returned states switch each relay on
/// exactly when [`spec_relay_on`] says. The scheduled settings themselves
/// are only read. The host applies the returned states to the relays and
/// calls this again every couple of seconds.
pub fn update_relay_states(
    settings: &mut Settings,
    scheduled_stop: &mut [[Option<InstantMillis>; MAX_SCHEDULED_ENTRIES]; NUM_RELAYS],
    now: InstantMillis,
    rtc: &RtcTime,
) -> (r: [bool; NUM_RELAYS])
    ensures
        final(settings).scheduled_out == old(settings).scheduled_out,
        forall|i: int|
            0 <= i < NUM_RELAYS ==> {
                &&& final(settings).immediate_out@[i] == spec_normalized_entry(
                    old(settings).immediate_out@[i],
                    now,
                )
                &&& (forall|j: int|
                    0 <= j < MAX_SCHEDULED_ENTRIES ==> spec_slot_marker_ok(
                        old(scheduled_stop)@[i]@[j],
                        old(settings).scheduled_out@[i]@[j],
                        now,
                        *rtc,
                        final(scheduled_stop)@[i]@[j],
                    ))
                &&& r@[i] == spec_relay_on(
                    old(settings).immediate_out@[i],
                    old(scheduled_stop)@[i],
                    old(settings).scheduled_out@[i],
                    now,
                    *rtc,
                )
            },
{
    let ghost settings0 = *settings;
    let ghost stops0 = *scheduled_stop;
    let mut states: [bool; NUM_RELAYS] = [false, false, false, false];
    let mut i: usize = 0;
    while i < NUM_RELAYS
        invariant
            i <= NUM_RELAYS,
            settings.scheduled_out == settings0.scheduled_out,
            forall|k: int|
                i <= k < NUM_RELAYS ==> settings.immediate_out@[k]
                    == settings0.immediate_out@[k],
            forall|k: int| i <= k < NUM_RELAYS ==> scheduled_stop@[k] == stops0@[k],
            forall|k: int|
                0 <= k < i ==> settings.immediate_out@[k] == spec_normalized_entry(
                    settings0.immediate_out@[k],
                    now,
                ),
            forall|k: int, j: int|
                0 <= k < i && 0 <= j < MAX_SCHEDULED_ENTRIES ==> spec_slot_marker_ok(
                    stops0@[k]@[j],
                    settings0.scheduled_out@[k]@[j],
                    now,
                    *rtc,
                    #[trigger] scheduled_stop@[k]@[j],
                ),
            forall|k: int|
                0 <= k < i ==> states@[k] == spec_relay_on(
                    settings0.immediate_out@[k],
                    stops0@[k],
                    settings0.scheduled_out@[k],
                    now,
                    *rtc,
                ),
        decreases NUM_RELAYS - i,
    {
        proof {
            assert(settings.immediate_out@[i as int] == settings0.immediate_out@[i as int]);
            assert(scheduled_stop@[i as int] == stops0@[i as int]);
        }
        let mut entry = settings.immediate_out[i];
        normalize_immediate_out_entry(&mut entry, now);
        settings.immediate_out[i] = entry;
        let mut active = entry.is_some();
        let ghost settings_mid = *settings;
        let ghost stops_mid = *scheduled_stop;
        let mut j: usize = 0;
        while j < MAX_SCHEDULED_ENTRIES
            invariant
                i < NUM_RELAYS,
                j <= MAX_SCHEDULED_ENTRIES,
                *settings == settings_mid,
                forall|k: int|
                    0 <= k < NUM_RELAYS && k != i ==> scheduled_stop@[k] == stops_mid@[k],
                forall|l: int|
                    j <= l < MAX_SCHEDULED_ENTRIES ==> scheduled_stop@[i as int]@[l]
                        == stops_mid@[i as int]@[l],
                forall|l: int|
                    0 <= l < j ==> spec_slot_marker_ok(
                        stops_mid@[i as int]@[l],
                        settings_mid.scheduled_out@[i as int]@[l],
                        now,
                        *rtc,
                        scheduled_stop@[i as int]@[l],
                    ),
                active == ({
                    ||| spec_normalized_entry(settings0.immediate_out@[i as int], now) is Some
                    ||| exists|l: int|
                        0 <= l < j && spec_slot_active(
                            stops_mid@[i as int]@[l],
                            settings_mid.scheduled_out@[i as int]@[l],
                            now,
                            *rtc,
                        )
                }),
            decreases MAX_SCHEDULED_ENTRIES - j,
        {
            let (new_stop, slot_active) = scheduled_slot_step(
                scheduled_stop[i][j],
                &settings.scheduled_out[i][j],
                now,
                rtc,
            );
            scheduled_stop[i][j] = new_stop;
            if slot_active {
                proof {
                    assert(spec_slot_active(
                        stops_mid@[i as int]@[j as int],
                        settings_mid.scheduled_out@[i as int]@[j as int],
                        now,
                        *rtc,
                    ));
                }
                active = true;
            }
            j += 1;
        }
        proof {
            assert forall|k: int| i + 1 <= k < NUM_RELAYS implies settings.immediate_out@[k]
                == settings0.immediate_out@[k] && scheduled_stop@[k] == stops0@[k] by {
                assert(scheduled_stop@[k] == stops_mid@[k]);
                assert(stops_mid@[k] == stops0@[k]);
                assert(settings.immediate_out@[k] == settings_mid.immediate_out@[k]);
            }
            assert(stops_mid@[i as int] == stops0@[i as int]);
            assert(settings_mid.scheduled_out == settings0.scheduled_out);
            assert forall|k: int, j: int|
                0 <= k < i + 1 && 0 <= j < MAX_SCHEDULED_ENTRIES implies spec_slot_marker_ok(
                stops0@[k]@[j],
                settings0.scheduled_out@[k]@[j],
                now,
                *rtc,
                #[trigger] scheduled_stop@[k]@[j],
            ) by {
                if k == i {
                    assert(spec_slot_marker_ok(
                        stops_mid@[k]@[j],
                        settings_mid.scheduled_out@[k]@[j],
                        now,
                        *rtc,
                        scheduled_stop@[k]@[j],
                    ));
                    assert(stops_mid@[k]@[j] == stops0@[k]@[j]);
                } else {
                    assert(scheduled_stop@[k] == stops_mid@[k]);
                    assert(spec_slot_marker_ok(
                        stops0@[k]@[j],
                        settings0.scheduled_out@[k]@[j],
                        now,
                        *rtc,
                        stops_mid@[k]@[j],
                    ));
                }
            }
            assert(active == spec_relay_on(
                settings0.immediate_out@[i as int],
                stops0@[i as int],
                settings0.scheduled_out@[i as int],
                now,
                *rtc,
            )) by {
                let row_mid = stops_mid@[i as int];
                let row0 = stops0@[i as int];
                if exists|l: int|
                    0 <= l < MAX_SCHEDULED_ENTRIES && spec_slot_active(
                        row_mid@[l],
                        settings_mid.scheduled_out@[i as int]@[l],
                        now,
                        *rtc,
                    ) {
                    let l = choose|l: int|
                        0 <= l < MAX_SCHEDULED_ENTRIES && spec_slot_active(
                            row_mid@[l],
                            settings_mid.scheduled_out@[i as int]@[l],
                            now,
                            *rtc,
                        );
                    assert(spec_slot_active(
                        row0@[l],
                        settings0.scheduled_out@[i as int]@[l],
                        now,
                        *rtc,
                    ));
                }
                if exists|l: int|
                    0 <= l < MAX_SCHEDULED_ENTRIES && spec_slot_active(
                        row0@[l],
                        settings0.scheduled_out@[i as int]@[l],
                        now,
                        *rtc,
                    ) {
                    let l = choose|l: int|
                        0 <= l < MAX_SCHEDULED_ENTRIES && spec_slot_active(
                            row0@[l],
                            settings0.scheduled_out@[i as int]@[l],
                            now,
                            *rtc,
                        );
                    assert(spec_slot_active(
                        row_mid@[l],
                        settings_mid.scheduled_out@[i as int]@[l],
                        now,
                        *rtc,
                    ));
                }
            }
        }
        states[i] = active;
        i += 1;
    }
    states
}

/// The remaining running time of an immediate timer entry, clamped to
/// zero from below; zero for an absent entry.
pub fn get_time_left(entry: &Option<ImmediateOutEntry>, now: InstantMillis) -> (r: DurationMillis)
    ensures
        r == (match *entry {
            None => 0 as DurationMillis,
            Some(e) => {
                if spec_entry_time_left(e, now) > 0 {
                    spec_entry_time_left(e, now)
                } else {
                    0 as DurationMillis
                }
            },
        }),
{
    let (start, duration) = match entry {
        None => {
            return 0;
        },
        Some(e) => (e.start, e.duration),
    };
    let time_left = duration.wrapping_sub(now.sub(start));
    if time_left > 0 {
        time_left
    } else {
        0
    }
}

} // verus!
