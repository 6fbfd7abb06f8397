use std::cell::RefCell;
use std::rc::Rc;

use greaheisl::basic_futures::{join2, sleep_at_most, Join2, SleepAtMost};
use greaheisl::executor::{MiniExecutor, MiniScheduler, Task, TaskPoll};
use greaheisl::milliseconds::InstantMillis;

/// A task that runs through a script of (marker, sleep) segments: it pushes
/// the marker to the shared trace, then sleeps for at most the given number
/// of milliseconds, and completes once the script is exhausted.
struct TraceTask {
    trace: Rc<RefCell<Vec<i32>>>,
    script: Vec<(i32, i32)>,
    index: usize,
    sleep: Option<SleepAtMost>,
}

impl TraceTask {
    fn new(trace: Rc<RefCell<Vec<i32>>>, script: Vec<(i32, i32)>) -> Self {
        TraceTask { trace, script, index: 0, sleep: None }
    }
}

impl<X> Task<X> for TraceTask {
    type Output = ();

    fn poll(&mut self, sched: &mut MiniScheduler<X>) -> TaskPoll<()> {
        loop {
            if let Some(sleep) = self.sleep.as_mut() {
                match sleep.poll(sched) {
                    TaskPoll::Pending => return TaskPoll::Pending,
                    TaskPoll::Ready(()) => self.sleep = None,
                }
            }
            if self.index >= self.script.len() {
                return TaskPoll::Ready(());
            }
            let (marker, millis) = self.script[self.index];
            self.index += 1;
            self.trace.borrow_mut().push(marker);
            self.sleep = Some(sleep_at_most(millis));
        }
    }
}

/// The root task of `simple_test`: four marked sleeps of 100 ms, then a
/// fork into two branches of two marked sleeps each (100 ms vs 99 ms).
struct MainTask {
    head: Option<TraceTask>,
    tail: Option<Join2<TraceTask, TraceTask, (), ()>>,
    trace: Rc<RefCell<Vec<i32>>>,
}

impl<X> Task<X> for MainTask {
    type Output = ();

    fn poll(&mut self, sched: &mut MiniScheduler<X>) -> TaskPoll<()> {
        if let Some(head) = self.head.as_mut() {
            match head.poll(sched) {
                TaskPoll::Pending => return TaskPoll::Pending,
                TaskPoll::Ready(()) => {
                    self.head = None;
                    self.tail = Some(join2::<X, (), (), TraceTask, TraceTask>(
                        TraceTask::new(self.trace.clone(), vec![(-10, 100), (-20, 100)]),
                        TraceTask::new(self.trace.clone(), vec![(-100, 99), (-200, 99)]),
                    ));
                }
            }
        }
        match self.tail.as_mut() {
            Some(tail) => match tail.poll(sched) {
                TaskPoll::Pending => TaskPoll::Pending,
                TaskPoll::Ready(((), ())) => TaskPoll::Ready(()),
            },
            None => TaskPoll::Pending,
        }
    }
}

/// Several sleep requests within one step: the step recommends the
/// minimum of them, never a larger one.
#[test]
fn step_returns_minimum_request() {
    let time = InstantMillis::from_absolute(0);
    let builder = MiniExecutor::<(), Join2<SleepAtMost, SleepAtMost, (), ()>>::new(time);
    let task = join2::<(), (), (), SleepAtMost, SleepAtMost>(sleep_at_most(50), sleep_at_most(30));
    let mut executor = builder.build(task);
    assert_eq!(executor.step(time.add(1), ()), Some(30));
    // Both sleeps complete at their second poll; the join is done.
    assert_eq!(executor.step(time.add(2), ()), None);
    // Stepping a finished executor stays a no-op.
    assert_eq!(executor.step(time.add(3), ()), None);
}

/// A step during which no task requested any delay recommends zero:
/// "poll again as soon as possible".
#[test]
fn step_without_request_returns_zero() {
    let time = InstantMillis::from_absolute(7);
    let builder = MiniExecutor::<(), greaheisl::basic_futures::YieldNow>::new(time);
    let mut executor = builder.build(greaheisl::basic_futures::yield_now());
    assert_eq!(executor.step(time, ()), Some(0));
    assert_eq!(executor.step(time, ()), None);
}

/// A timer wait requests exactly the remaining time on every step and
/// completes once the duration has passed.
#[test]
fn timer_wait_requests_remaining_time() {
    let time = InstantMillis::from_absolute(1000);
    let builder = MiniExecutor::<(), greaheisl::timer::TimerWait>::new(time);
    let timer = greaheisl::timer::Timer::new(builder.scheduler(), 500);
    assert_eq!(timer.start_time().into_inner(), 1000);
    let mut executor = builder.build(timer.wait());
    assert_eq!(executor.step(time.add(100), ()), Some(400));
    assert_eq!(executor.step(time.add(499), ()), Some(1));
    assert_eq!(executor.step(time.add(500), ()), None);
}

#[test]
fn simple_test() {
    let mut time = InstantMillis::from_absolute(10);
    let executor_builder = MiniExecutor::<(), MainTask>::new(time);
    let result = Rc::new(RefCell::new(Vec::new()));
    let task = MainTask {
        head: Some(TraceTask::new(
            result.clone(),
            vec![(-1, 100), (-2, 100), (-3, 100), (-4, 100)],
        )),
        tail: None,
        trace: result.clone(),
    };
    let mut executor = executor_builder.build(task);
    result.borrow_mut().push(time.into_inner() as i32);
    time = time.add(10);
    for _i in 0..6 {
        if let Some(max_wait) = executor.step(time, ()) {
            time = time.add(max_wait);
            result.borrow_mut().push(time.into_inner() as i32);
        }
    }
    let result = result.borrow().clone();
    assert_eq!(
        result,
        vec![10, -1, 120, -2, 220, -3, 320, -4, 420, -10, -100, 519, -20, -200, 618]
    )
}
