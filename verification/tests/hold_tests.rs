use std::cell::RefCell;
use std::rc::Rc;

use greaheisl::button_processor::{
    ButtonClient, ButtonProcessor, ButtonProcessorOptions, ButtonProcessorRun, ButtonState,
};
use greaheisl::check_hold_button::{CheckHoldButton, CheckHoldButtonResult, CheckHoldWait};
use greaheisl::executor::{MiniExecutor, MiniScheduler, TaskPoll};
use greaheisl::milliseconds::{DurationMillis, InstantMillis};
use greaheisl::system::{ButtonFlags, SignalFlags, SystemInputs};

/// A client that, once some buttons are down, watches whether they stay
/// held for 2000 ms, and completes with the watch's verdict and the
/// instant it was reached.
struct HoldWatch {
    wait: Option<CheckHoldWait<ButtonFlags>>,
    outcome: Rc<RefCell<Option<(u32, CheckHoldButtonResult)>>>,
}

impl ButtonClient<ButtonFlags, SystemInputs> for HoldWatch {
    type Output = ();

    fn poll(
        &mut self,
        sched: &mut MiniScheduler<SystemInputs>,
        buttons: &ButtonProcessor<ButtonFlags>,
    ) -> TaskPoll<()> {
        if self.wait.is_none() {
            if !matches!(buttons.state(), ButtonState::SomeButtons { .. }) {
                return TaskPoll::Pending;
            }
            let check = CheckHoldButton::new(buttons, 2000);
            self.wait = Some(check.wait());
        }
        match self.wait.as_mut().unwrap().poll(sched, buttons) {
            TaskPoll::Ready(result) => {
                let now = sched.get_instant().into_inner();
                *self.outcome.borrow_mut() = Some((now, result));
                TaskPoll::Ready(())
            }
            TaskPoll::Pending => TaskPoll::Pending,
        }
    }
}

/// Feeds the readings at the given cadence (or sooner if a step recommends
/// less) and returns the watch's verdict with its instant.
fn run_hold_watch(
    readings: &[ButtonFlags],
    cadence: DurationMillis,
) -> Option<(u32, CheckHoldButtonResult)> {
    let mut time = InstantMillis::from_absolute(0);
    let builder =
        MiniExecutor::<SystemInputs, ButtonProcessorRun<ButtonFlags, HoldWatch, ()>>::new(time);
    let outcome = Rc::new(RefCell::new(None));
    let processor = ButtonProcessor::new(ButtonProcessorOptions::default());
    let task = processor.run(HoldWatch { wait: None, outcome: outcome.clone() });
    let mut executor = builder.build(task);
    for reading in readings {
        let inputs = SystemInputs { signals: SignalFlags::button(), buttons: *reading };
        let step = match executor.step(time, inputs) {
            Some(delay) => delay.min(cadence),
            None => break,
        };
        time = time.add(step);
    }
    let result = outcome.borrow().clone();
    result
}

/// Holding the combination to the end confirms the hold exactly when the
/// 2000 ms have passed since the press.
#[test]
fn hold_confirmed() {
    let a = ButtonFlags::enter();
    let readings = vec![ButtonFlags::none(), a, a, a, a, a, a, a, a, a, a, a, a];
    let outcome = run_hold_watch(&readings, 400);
    // The press happens at t = 0; the watch confirms at t = 2000.
    assert_eq!(outcome, Some((2000, CheckHoldButtonResult::Hold)));
}

/// Releasing the combination early ends the watch with `ReleaseEarly`.
#[test]
fn hold_released_early() {
    let a = ButtonFlags::enter();
    let readings = vec![ButtonFlags::none(), a, a, ButtonFlags::none(), ButtonFlags::none()];
    let outcome = run_hold_watch(&readings, 400);
    assert_eq!(outcome, Some((750, CheckHoldButtonResult::ReleaseEarly)));
}

/// Growing the combination while watched ends the watch with `Other`.
#[test]
fn hold_changed_to_other() {
    let a = ButtonFlags::enter();
    let readings = vec![ButtonFlags::none(), a, a, a.union(ButtonFlags::next())];
    let outcome = run_hold_watch(&readings, 400);
    assert_eq!(outcome, Some((750, CheckHoldButtonResult::Other)));
}
