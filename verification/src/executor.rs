//! A mini executor to be integrated into the event loop of an embedded
//! device.
//!
//! The executor owns a single root task. The host calls
//! [`MiniExecutor::step`] once per external tick, passing the current
//! instant and a snapshot of the signals that may have triggered the tick.
//! The root task (and everything it forks through
//! [`crate::basic_futures::join2`]) is a state machine implementing
//! [`Task`]: each step polls it exactly once against the shared
//! [`MiniScheduler`] state, through which the task tree reads the time and
//! signals and raises sleep requests. The step returns the minimum of the
//! sleep requests raised during that poll, the recommended maximum delay
//! before the next step.

use vstd::prelude::*;

use crate::milliseconds::{DurationMillis, InstantMillis};

verus! {

/// The smaller of two durations.
pub open spec fn min_millis(a: DurationMillis, b: DurationMillis) -> DurationMillis {
    if a <= b {
        a
    } else {
        b
    }
}

/// The minimum over a sequence of requested delays, `None` when no request
/// was made. This is the value a well-formed scheduler holds as its pending
/// delay request after the recorded requests were merged one by one.
pub open spec fn min_request(s: Seq<DurationMillis>) -> Option<DurationMillis>
    decreases s.len(),
{
    if s.len() == 0 {
        None
    } else {
        match min_request(s.drop_last()) {
            None => Some(s.last()),
            Some(m) => Some(min_millis(m, s.last())),
        }
    }
}

/// For internal use.
///
/// This wrapper cannot be created outside this crate. It protects
/// [`MiniScheduler::set_delay_request`] from being used outside the sleep
/// primitives of this crate.
pub struct DurationWrapper(DurationMillis);

impl DurationWrapper {
    /// The wrapped number of milliseconds.
    pub closed spec fn millis(&self) -> DurationMillis {
        self.0
    }

    /// Wraps a duration, for the sleep primitives of this crate.
    pub(crate) fn wrap(millis: DurationMillis) -> (r: Self)
        ensures
            r.millis() == millis,
    {
        DurationWrapper(millis)
    }
}

/// The shared scheduler state of a [`MiniExecutor`]: the current instant,
/// the latest signals snapshot, and the pending minimum delay request,
/// reset at the start of every step and shrunk monotonically within it.
///
/// The ghost `requests` field records every delay request raised since the
/// last reset, so that contracts can speak about "all requests made during
/// one step".
pub struct MiniScheduler<X> {
    delay_request: Option<DurationMillis>,
    instant: InstantMillis,
    executor_signals: X,
    requests: Ghost<Seq<DurationMillis>>,
}

impl<X> MiniScheduler<X> {
    /// The instant passed to the latest call to [`MiniExecutor::step`].
    pub closed spec fn spec_instant(&self) -> InstantMillis {
        self.instant
    }

    /// The pending minimum delay request of the current step.
    pub closed spec fn spec_delay_request(&self) -> Option<DurationMillis> {
        self.delay_request
    }

    /// The signals snapshot passed to the latest call to [`MiniExecutor::step`].
    pub closed spec fn spec_signals(&self) -> X {
        self.executor_signals
    }

    /// All delay requests raised since the start of the current step, in order.
    pub closed spec fn spec_requests(&self) -> Seq<DurationMillis> {
        self.requests@
    }

    /// The pending delay request is exactly the minimum of the requests
    /// raised during the current step.
    pub open spec fn wf(&self) -> bool {
        self.spec_delay_request() == min_request(self.spec_requests())
    }

    /// Returns the instant passed to the latest call to [`MiniExecutor::step`].
    pub fn get_instant(&self) -> (r: InstantMillis)
        ensures
            r == self.spec_instant(),
    {
        self.instant
    }

    /// Records a delay request, merged with any other pending request of the
    /// current step by keeping the minimum.
    pub fn set_delay_request(&mut self, delay: DurationWrapper)
        ensures
            final(self).spec_instant() == old(self).spec_instant(),
            final(self).spec_signals() == old(self).spec_signals(),
            final(self).spec_requests() == old(self).spec_requests().push(delay.millis()),
            final(self).spec_delay_request() == (match old(self).spec_delay_request() {
                None => Some(delay.millis()),
                Some(m) => Some(min_millis(m, delay.millis())),
            }),
            old(self).wf() ==> final(self).wf(),
    {
        match self.delay_request {
            Some(cur) => {
                if cur > delay.0 {
                    self.delay_request = Some(delay.0);
                }
            },
            None => {
                self.delay_request = Some(delay.0);
            },
        }
        proof {
            assert(self.requests@.push(delay.0).drop_last() =~= self.requests@);
        }
        self.requests = Ghost(self.requests@.push(delay.0));
    }
}

impl<X: Copy> MiniScheduler<X> {
    /// Returns the signals snapshot passed to the latest call to
    /// [`MiniExecutor::step`].
    pub fn get_executor_signals(&self) -> (r: X)
        ensures
            r == self.spec_signals(),
    {
        self.executor_signals
    }
}

/// Access to the timing of execution: the capability interface of
/// [`MiniScheduler`] that tasks and host glue may program against when
/// they do not need the scheduler's full contracts.
pub trait AccessTiming {
    /// Returns the instant passed to the latest call to [`MiniExecutor::step`].
    fn get_instant(&self) -> InstantMillis;

    /// Use the sleep primitives instead; [`DurationWrapper`] keeps this
    /// internal to this crate.
    fn set_delay_request(&mut self, millis: DurationWrapper);
}

/// Access to the signals passed to [`MiniExecutor::step`].
pub trait AccessExecutorSignals<X> {
    /// Gets the data that was passed to the latest call to
    /// [`MiniExecutor::step`].
    fn get_executor_signals(&self) -> X;
}

/// A "scheduler": something that manages the timing of the calls to the
/// step function and carries the executor signals. `X` is the type of the
/// executor signals.
pub trait Scheduler<X>: AccessTiming + AccessExecutorSignals<X> {

}

impl<X> AccessTiming for MiniScheduler<X> {
    fn get_instant(&self) -> InstantMillis {
        MiniScheduler::get_instant(self)
    }

    fn set_delay_request(&mut self, millis: DurationWrapper) {
        MiniScheduler::set_delay_request(self, millis)
    }
}

impl<X: Copy> AccessExecutorSignals<X> for MiniScheduler<X> {
    fn get_executor_signals(&self) -> X {
        MiniScheduler::get_executor_signals(self)
    }
}

impl<X, T: AccessTiming + AccessExecutorSignals<X>> Scheduler<X> for T {

}

/// A struct that can be used as an error return value when a stop signal
/// was received. Cooperative termination is not an error: it is a normal,
/// expected alternate return path, threaded explicitly through `Result`
/// returns so callers can distinguish "finished" from "asked to stop".
pub struct Stopped;

/// An abstraction useful for boolean signals.
pub trait ReceiveBool {
    /// Reads the current value of the signal.
    fn get(&self) -> bool;
}

impl ReceiveBool for bool {
    fn get(&self) -> (r: bool)
        ensures
            r == *self,
    {
        *self
    }
}

/// What one poll of a task may do to the scheduler state: it reads the
/// instant and signals but never changes them, and it only adds delay
/// requests, keeping the scheduler well formed.
pub open spec fn evolves_within_step<X>(pre: MiniScheduler<X>, post: MiniScheduler<X>) -> bool {
    &&& post.spec_instant() == pre.spec_instant()
    &&& post.spec_signals() == pre.spec_signals()
    &&& pre.spec_requests().is_prefix_of(post.spec_requests())
    &&& (pre.wf() ==> post.wf())
}

/// The result of polling a [`Task`] once: either the task has more work to
/// do and asks to be polled again at the next step, or it is done and
/// yields its output. A task that reported `Ready` must not be polled again.
pub enum TaskPoll<T> {
    /// The task has not finished yet.
    Pending,
    /// The task has finished with the given output.
    Ready(T),
}

/// A cooperative computation, driven by one poll per executor step.
///
/// This is the explicit state-machine counterpart of a suspendable
/// computation: a value that makes some progress on every poll, suspends by
/// returning [`TaskPoll::Pending`], and eventually completes with
/// [`TaskPoll::Ready`]. Combinators such as [`crate::basic_futures::Join2`]
/// compose tasks into trees that the [`MiniExecutor`] drives as one root.
pub trait Task<X>: Sized {
    /// The value the task produces when it completes.
    type Output;

    /// The exact relation one poll establishes between the task value and
    /// the scheduler before and after the call, and the poll result.
    /// Implementations override this with their precise transition.
    open spec fn poll_spec(
        pre: Self,
        pre_sched: MiniScheduler<X>,
        post: Self,
        post_sched: MiniScheduler<X>,
        r: TaskPoll<Self::Output>,
    ) -> bool {
        true
    }

    /// Makes one unit of progress. Must not be called again once it has
    /// returned [`TaskPoll::Ready`].
    fn poll(&mut self, sched: &mut MiniScheduler<X>) -> (r: TaskPoll<Self::Output>)
        ensures
            Self::poll_spec(*old(self), *old(sched), *final(self), *final(sched), r),
            evolves_within_step(*old(sched), *final(sched)),
    ;
}

/// First stage of the executor: it already owns the scheduler state, but
/// the root task has not been supplied yet. This lets the root task be
/// constructed against the initial scheduler state (for example to capture
/// the start instant) before the executor takes ownership of both.
pub struct MiniExecutorBuilder<X> {
    scheduler: MiniScheduler<X>,
}

/// Simple executor to be integrated into the event loop of an embedded
/// device.
///
/// Call [`MiniExecutor::step`] once per external tick to run the single
/// task managed by the executor. The task can fork into emulated parallel
/// tasks using [`crate::basic_futures::join2`].
pub struct MiniExecutor<X, F> {
    task: Option<F>,
    scheduler: MiniScheduler<X>,
}

impl<X> MiniExecutorBuilder<X> {
    /// The scheduler state the executor will drive the root task against.
    pub closed spec fn spec_scheduler(&self) -> MiniScheduler<X> {
        self.scheduler
    }

    /// Read access to the initial scheduler state, for constructing the
    /// root task.
    pub fn scheduler(&self) -> (r: &MiniScheduler<X>)
        ensures
            *r == self.spec_scheduler(),
    {
        &self.scheduler
    }

    /// Second stage of initializing the executor.
    ///
    /// `task` is the root task run by the executor. Returns an instance of
    /// the [`MiniExecutor`].
    pub fn build<F: Task<X>>(self, task: F) -> (r: MiniExecutor<X, F>)
        ensures
            r.spec_task() == Some(task),
            r.spec_scheduler() == self.spec_scheduler(),
    {
        MiniExecutor { task: Some(task), scheduler: self.scheduler }
    }
}

impl<X, F> MiniExecutor<X, F> {
    /// The root task, or `None` once it has completed.
    pub closed spec fn spec_task(&self) -> Option<F> {
        self.task
    }

    /// The scheduler state shared with the task tree.
    pub closed spec fn spec_scheduler(&self) -> MiniScheduler<X> {
        self.scheduler
    }
}

impl<X: Copy + Default, F: Task<X>> MiniExecutor<X, F> {
    /// First stage of initialization of the executor.
    ///
    /// `start_time` needs to be the current time when the executor is
    /// created. Returns an executor builder, needed for the second stage of
    /// initialization.
    pub fn new(start_time: InstantMillis) -> (r: MiniExecutorBuilder<X>)
        ensures
            r.spec_scheduler().spec_instant() == start_time,
            r.spec_scheduler().spec_delay_request() is None,
            r.spec_scheduler().spec_requests() == Seq::<DurationMillis>::empty(),
            r.spec_scheduler().wf(),
    {
        MiniExecutorBuilder {
            scheduler: MiniScheduler {
                delay_request: None,
                instant: start_time,
                executor_signals: X::default(),
                requests: Ghost(Seq::empty()),
            },
        }
    }

    /// Runs the `poll()` function of the root task once.
    ///
    /// `instant` is the current time with millisecond resolution.
    /// `executor_signals` can be any data implementing `Copy` and `Default`;
    /// the scheduler makes it available to the running tasks, typically to
    /// indicate what kind of event triggered this step.
    ///
    /// The scheduler state is updated first: the instant and signals are
    /// replaced by the given values and the pending delay request of the
    /// previous step is cleared. Then the root task is polled exactly once,
    /// unless it has already completed.
    ///
    /// The return value is `None` once the root task has completed (whether
    /// before or during this call); stepping may stop then. Otherwise it is
    /// `Some(delay)`: the minimum delay requested during this step, the
    /// maximum time the host may wait before calling `step` again, or zero
    /// if no delay was requested at all, meaning the task should be polled
    /// again as soon as possible. Calling `step` sooner than the returned
    /// delay is always acceptable, and may be needed if an event requires
    /// immediate processing.
    pub fn step(&mut self, instant: InstantMillis, executor_signals: X) -> (r: Option<
        DurationMillis,
    >)
        ensures
            final(self).spec_scheduler().spec_instant() == instant,
            final(self).spec_scheduler().spec_signals() == executor_signals,
            final(self).spec_scheduler().wf(),
            old(self).spec_task() is None ==> {
                &&& r is None
                &&& final(self).spec_task() is None
                &&& final(self).spec_scheduler().spec_requests() == Seq::<DurationMillis>::empty()
            },
            (old(self).spec_task() matches Some(t)) ==> exists|
                mid: MiniScheduler<X>,
                post: F,
                pr: TaskPoll<F::Output>,
            |
                {
                    &&& mid.spec_instant() == instant
                    &&& mid.spec_signals() == executor_signals
                    &&& mid.spec_delay_request() is None
                    &&& mid.spec_requests() == Seq::<DurationMillis>::empty()
                    &&& #[trigger] F::poll_spec(
                        old(self).spec_task()->Some_0,
                        mid,
                        post,
                        final(self).spec_scheduler(),
                        pr,
                    )
                    &&& match pr {
                        TaskPoll::Ready(_) => final(self).spec_task() is None && r is None,
                        TaskPoll::Pending => {
                            &&& final(self).spec_task() == Some(post)
                            &&& r == Some(
                                match final(self).spec_scheduler().spec_delay_request() {
                                    Some(d) => d,
                                    None => 0 as DurationMillis,
                                },
                            )
                        },
                    }
                },
    {
        self.scheduler.instant = instant;
        self.scheduler.executor_signals = executor_signals;
        self.scheduler.delay_request = None;
        self.scheduler.requests = Ghost(Seq::empty());
        let ghost mid = self.scheduler;
        match &mut self.task {
            None => None,
            Some(task) => {
                let pollres = task.poll(&mut self.scheduler);
                match pollres {
                    TaskPoll::Ready(_) => {
                        self.task = None;
                        None
                    },
                    TaskPoll::Pending => {
                        match self.scheduler.delay_request {
                            None => Some(0),
                            Some(delay_request) => Some(delay_request),
                        }
                    },
                }
            },
        }
    }
}

/// The minimum of the recorded requests is one of them and is no larger
/// than any of them.
proof fn lemma_min_request_properties(s: Seq<DurationMillis>)
    requires
        s.len() > 0,
    ensures
        min_request(s) matches Some(m) && s.contains(m) && forall|i: int|
            0 <= i < s.len() ==> m <= #[trigger] s[i],
    decreases s.len(),
{
    if s.len() == 1 {
        assert(s.drop_last().len() == 0);
        assert(s.contains(s.last())) by {
            assert(s[0] == s.last());
        }
    } else {
        lemma_min_request_properties(s.drop_last());
        let m_rest = min_request(s.drop_last())->Some_0;
        let m = min_request(s)->Some_0;
        assert(s.drop_last().contains(m_rest));
        let i = choose|i: int| 0 <= i < s.drop_last().len() && s.drop_last()[i] == m_rest;
        if m == m_rest {
            assert(s[i] == m_rest);
            assert(s.contains(m));
        } else {
            assert(m == s.last());
            assert(s.contains(m));
        }
        assert forall|j: int| 0 <= j < s.len() implies m <= #[trigger] s[j] by {
            if j < s.len() - 1 {
                assert(s.drop_last()[j] == s[j]);
            }
        }
    }
}

/// Several sleep requests within one step leave the minimum of all of them
/// as the step's pending delay request: the recorded request is one of the
/// requested durations, and never a larger one.
pub proof fn lemma_request_is_minimum<X>(s: MiniScheduler<X>)
    requires
        s.wf(),
        s.spec_requests().len() > 0,
    ensures
        s.spec_delay_request() matches Some(m) && s.spec_requests().contains(m) && forall|i: int|
            0 <= i < s.spec_requests().len() ==> m <= #[trigger] s.spec_requests()[i],
{
    lemma_min_request_properties(s.spec_requests());
}

} // verus!
