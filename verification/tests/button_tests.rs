use std::cell::RefCell;
use std::rc::Rc;

use greaheisl::button_processor::{
    ButtonClient, ButtonEvent, ButtonProcessor, ButtonProcessorOptions, ButtonProcessorRun,
};
use greaheisl::executor::{MiniExecutor, MiniScheduler, TaskPoll};
use greaheisl::milliseconds::{DurationMillis, InstantMillis};
use greaheisl::system::{ButtonFlags, SignalFlags, SystemInputs};
use greaheisl::timer::Timer;

type Event = ButtonEvent<ButtonFlags>;

/// A client that records the processor's event on every poll and never
/// completes; it raises no delay requests of its own.
struct Recorder {
    log: Rc<RefCell<Vec<(u32, Event)>>>,
}

impl ButtonClient<ButtonFlags, SystemInputs> for Recorder {
    type Output = ();

    fn poll(
        &mut self,
        sched: &mut MiniScheduler<SystemInputs>,
        buttons: &ButtonProcessor<ButtonFlags>,
    ) -> TaskPoll<()> {
        let now = sched.get_instant().into_inner();
        self.log.borrow_mut().push((now, buttons.event()));
        TaskPoll::Pending
    }
}

/// Steps the executor once per reading, advancing the clock by `cadence`
/// milliseconds per step, and returns the recorded (instant, event) pairs.
fn drive_sequence(readings: &[ButtonFlags], cadence: DurationMillis) -> Vec<(u32, Event)> {
    let mut time = InstantMillis::from_absolute(0);
    let builder =
        MiniExecutor::<SystemInputs, ButtonProcessorRun<ButtonFlags, Recorder, ()>>::new(time);
    let log = Rc::new(RefCell::new(Vec::new()));
    let processor = ButtonProcessor::new(ButtonProcessorOptions::default());
    let task = processor.run(Recorder { log: log.clone() });
    let mut executor = builder.build(task);
    for reading in readings {
        let inputs = SystemInputs { signals: SignalFlags::button(), buttons: *reading };
        executor.step(time, inputs);
        time = time.add(cadence);
    }
    let recorded = log.borrow().clone();
    recorded
}

/// Steps the executor with a constant reading, advancing the clock by
/// whatever delay each step recommends (capped), for `steps` steps.
fn drive_hold(
    prelude: &[ButtonFlags],
    held: ButtonFlags,
    cadence: DurationMillis,
    steps: usize,
    cap: DurationMillis,
) -> Vec<(u32, Event)> {
    let mut time = InstantMillis::from_absolute(0);
    let builder =
        MiniExecutor::<SystemInputs, ButtonProcessorRun<ButtonFlags, Recorder, ()>>::new(time);
    let log = Rc::new(RefCell::new(Vec::new()));
    let processor = ButtonProcessor::new(ButtonProcessorOptions::default());
    let task = processor.run(Recorder { log: log.clone() });
    let mut executor = builder.build(task);
    for reading in prelude {
        let inputs = SystemInputs { signals: SignalFlags::button(), buttons: *reading };
        executor.step(time, inputs);
        time = time.add(cadence);
    }
    for _ in 0..steps {
        let inputs = SystemInputs { signals: SignalFlags::button(), buttons: held };
        let delay = executor.step(time, inputs).unwrap();
        time = time.add(delay.min(cap));
    }
    let recorded = log.borrow().clone();
    recorded
}

fn events_of(log: &[(u32, Event)]) -> Vec<Event> {
    log.iter().map(|(_, e)| *e).collect()
}

/// The debouncing scenario: one `Press` on the first non-empty reading, no
/// `Press` for identical readings, a `Release` on return to empty, no
/// `Repeat` while each hold stays under the 750 ms start delay, and an
/// ambiguous change (Prev to Next) invalidating instead of pressing.
#[test]
fn press_release_sequence() {
    let a = ButtonFlags::escape();
    let readings = vec![
        ButtonFlags::none(),
        ButtonFlags::none(),
        a,
        a,
        a,
        a,
        ButtonFlags::none(),
        ButtonFlags::none(),
        ButtonFlags::enter(),
        ButtonFlags::none(),
        ButtonFlags::prev(),
        ButtonFlags::next(),
        ButtonFlags::none(),
    ];
    let log = drive_sequence(&readings, 100);
    let expected = vec![
        Event::NoEvent,
        Event::NoEvent,
        Event::Press(a),
        Event::NoEvent,
        Event::NoEvent,
        Event::NoEvent,
        Event::Release(a),
        Event::NoEvent,
        Event::Press(ButtonFlags::enter()),
        Event::Release(ButtonFlags::enter()),
        Event::Press(ButtonFlags::prev()),
        Event::Release(ButtonFlags::prev()),
        Event::NoEvent,
    ];
    assert_eq!(events_of(&log), expected);
}

/// Holding one combination unchanged: exactly one `Repeat` once the hold
/// reaches 750 ms, and further `Repeat`s every 375 ms after that.
#[test]
fn repeat_cadence() {
    let a = ButtonFlags::enter();
    // One empty reading at t = 0, then the button goes down at t = 10 and
    // stays down; each step advances by the recommended delay.
    let log = drive_hold(&[ButtonFlags::none()], a, 10, 8, 10_000);
    let presses: Vec<(u32, Event)> = log
        .iter()
        .filter(|(_, e)| !matches!(e, Event::NoEvent))
        .cloned()
        .collect();
    assert_eq!(presses[0], (10, Event::Press(a)));
    assert_eq!(presses[1], (760, Event::Repeat(a)));
    assert_eq!(presses[2], (1135, Event::Repeat(a)));
    assert_eq!(presses[3], (1510, Event::Repeat(a)));
    for (k, entry) in presses.iter().enumerate().skip(2) {
        assert_eq!(entry.0, 760 + 375 * (k as u32 - 1));
    }
}

/// A hold shorter than the 750 ms start delay never produces a `Repeat`.
#[test]
fn no_repeat_under_start_delay() {
    let a = ButtonFlags::prev();
    let readings = vec![
        ButtonFlags::none(),
        a,
        a,
        a,
        ButtonFlags::none(),
    ];
    // 200 ms cadence: the button is held for 600 ms in total.
    let log = drive_sequence(&readings, 200);
    assert!(!events_of(&log).iter().any(|e| matches!(e, Event::Repeat(_))));
}

/// A strict partial release (holding two buttons, then observing only one)
/// emits a `Release` of the full combination, drives the state to
/// `Invalid`, and suppresses `Press` events until the flags read fully
/// empty.
#[test]
fn partial_release_invalidates() {
    let a = ButtonFlags::escape();
    let b = ButtonFlags::prev();
    let both = a.union(b);
    let readings = vec![
        ButtonFlags::none(),
        both,
        a,  // partial release: still holding a
        a,
        a,  // pressing on while invalid: must stay suppressed
        ButtonFlags::none(),
        a,  // only now a fresh press is recognized
    ];
    let log = drive_sequence(&readings, 100);
    let expected = vec![
        Event::NoEvent,
        Event::Press(both),
        Event::Release(both),
        Event::NoEvent,
        Event::NoEvent,
        Event::NoEvent,
        Event::Press(a),
    ];
    assert_eq!(events_of(&log), expected);
}

/// An interactive event watcher: report each event, then watch for up to
/// 1000 ms until the next event shows.
struct EventWatch {
    timer: Option<Timer>,
    log: Rc<RefCell<Vec<(u32, Event)>>>,
}

impl ButtonClient<ButtonFlags, SystemInputs> for EventWatch {
    type Output = ();

    fn poll(
        &mut self,
        sched: &mut MiniScheduler<SystemInputs>,
        buttons: &ButtonProcessor<ButtonFlags>,
    ) -> TaskPoll<()> {
        let report = match self.timer {
            None => true,
            Some(timer) => {
                !matches!(buttons.event(), Event::NoEvent) || timer.time_left(sched) <= 0
            }
        };
        if report {
            let now = sched.get_instant().into_inner();
            self.log.borrow_mut().push((now, buttons.event()));
            self.timer = Some(Timer::new(sched, 1000));
        }
        let timer = self.timer.as_ref().unwrap();
        timer.yield_if_time_left(sched);
        TaskPoll::Pending
    }
}

#[test]
fn button_test() {
    let button_sequence: Vec<ButtonFlags> = vec![
        ButtonFlags::none(),
        ButtonFlags::none(),
        ButtonFlags::escape(),
        ButtonFlags::escape(),
        ButtonFlags::escape(),
        ButtonFlags::escape(),
        ButtonFlags::none(),
        ButtonFlags::none(),
        ButtonFlags::enter(),
        ButtonFlags::none(),
        ButtonFlags::prev(),
        ButtonFlags::next(),
        ButtonFlags::none(),
        ButtonFlags::prev(),
        ButtonFlags::prev().union(ButtonFlags::next()),
        ButtonFlags::next(),
        ButtonFlags::none(),
    ];
    let mut fake_time = InstantMillis::from_absolute(0);
    let builder =
        MiniExecutor::<SystemInputs, ButtonProcessorRun<ButtonFlags, EventWatch, ()>>::new(
            fake_time,
        );
    let log = Rc::new(RefCell::new(Vec::new()));
    let processor = ButtonProcessor::new(ButtonProcessorOptions::default());
    let task = processor.run(EventWatch { timer: None, log: log.clone() });
    let mut executor = builder.build(task);
    const MAX_WAIT: DurationMillis = 12345;
    for elem in button_sequence {
        let inputs = SystemInputs { signals: SignalFlags::button(), buttons: elem };
        let timestep = {
            if let Some(delay_millis) = executor.step(fake_time, inputs) {
                println!("Waiting {} milli seconds.", delay_millis);
                delay_millis.min(MAX_WAIT)
            } else {
                MAX_WAIT
            }
        };
        fake_time = fake_time.add(timestep);
    }
    // The run must have seen the presses of the sequence in order.
    let presses: Vec<Event> = log
        .borrow()
        .iter()
        .map(|(_, e)| *e)
        .filter(|e| matches!(e, Event::Press(_)))
        .collect();
    assert_eq!(
        presses,
        vec![
            Event::Press(ButtonFlags::escape()),
            Event::Press(ButtonFlags::enter()),
            Event::Press(ButtonFlags::prev()),
            Event::Press(ButtonFlags::prev()),
            Event::Press(ButtonFlags::prev().union(ButtonFlags::next())),
        ]
    );
}
