//! The basic cooperative primitives: a task that yields exactly once, a
//! task that raises a sleep request and yields once, and a combinator that
//! runs two tasks "in parallel" by polling both until both have finished.

use vstd::prelude::*;

use crate::executor::{evolves_within_step, MiniScheduler, Task, TaskPoll};
use crate::milliseconds::DurationMillis;

verus! {

/// Cooperatively gives up a timeslice to the task scheduler.
///
/// In other words, the task stops here and passes control back to the
/// executor until it is polled again: the first poll reports
/// [`TaskPoll::Pending`], the second reports [`TaskPoll::Ready`]. This is
/// the sole primitive that actually suspends; every other waiting
/// primitive composes on top of it.
pub fn yield_now() -> (r: YieldNow)
    ensures
        !r.spec_polled(),
{
    YieldNow { polled: false }
}

/// The task returned by [`yield_now`].
pub struct YieldNow {
    polled: bool,
}

impl YieldNow {
    /// Whether the task has already been polled (and therefore completes
    /// at the next poll).
    pub closed spec fn spec_polled(&self) -> bool {
        self.polled
    }
}

impl<X> Task<X> for YieldNow {
    type Output = ();

    /// Never touches the scheduler; pending on the first poll, ready on
    /// the second.
    open spec fn poll_spec(
        pre: Self,
        pre_sched: MiniScheduler<X>,
        post: Self,
        post_sched: MiniScheduler<X>,
        r: TaskPoll<()>,
    ) -> bool {
        &&& post_sched == pre_sched
        &&& post.spec_polled()
        &&& r == (if pre.spec_polled() {
            TaskPoll::Ready(())
        } else {
            TaskPoll::<()>::Pending
        })
    }

    fn poll(&mut self, sched: &mut MiniScheduler<X>) -> (r: TaskPoll<()>) {
        if !self.polled {
            self.polled = true;
            TaskPoll::Pending
        } else {
            TaskPoll::Ready(())
        }
    }
}

/// Interrupts execution and resumes after at most the given duration.
///
/// When first polled, the returned task records a delay request of at most
/// `duration` milliseconds on the scheduler state — merged with any other
/// request pending in the same step by keeping the minimum — and suspends
/// exactly once. It does not guarantee that the task is not resumed
/// earlier: the request is a *maximum* delay hint, not a guaranteed wake
/// time. A long wait is expressed by raising a request on every step, as
/// [`crate::timer::Timer`] does, because the executor only looks at the
/// requests made during a single step.
pub fn sleep_at_most(duration: DurationMillis) -> (r: SleepAtMost)
    ensures
        r.spec_duration() == duration,
        !r.spec_polled(),
{
    SleepAtMost { duration, polled: false }
}

/// The task returned by [`sleep_at_most`].
pub struct SleepAtMost {
    duration: DurationMillis,
    polled: bool,
}

impl SleepAtMost {
    /// The requested maximum delay.
    pub closed spec fn spec_duration(&self) -> DurationMillis {
        self.duration
    }

    /// Whether the request has been raised (and the task completes at the
    /// next poll).
    pub closed spec fn spec_polled(&self) -> bool {
        self.polled
    }
}

impl<X> Task<X> for SleepAtMost {
    type Output = ();

    /// The first poll appends the duration to the step's delay requests
    /// and suspends; the second poll completes without touching the
    /// scheduler.
    open spec fn poll_spec(
        pre: Self,
        pre_sched: MiniScheduler<X>,
        post: Self,
        post_sched: MiniScheduler<X>,
        r: TaskPoll<()>,
    ) -> bool {
        &&& post.spec_duration() == pre.spec_duration()
        &&& post.spec_polled()
        &&& if pre.spec_polled() {
            post_sched == pre_sched && r == TaskPoll::Ready(())
        } else {
            &&& post_sched.spec_requests() == pre_sched.spec_requests().push(pre.spec_duration())
            &&& r == TaskPoll::<()>::Pending
        }
    }

    fn poll(&mut self, sched: &mut MiniScheduler<X>) -> (r: TaskPoll<()>) {
        if !self.polled {
            self.polled = true;
            sched.set_delay_request(crate::executor::DurationWrapper::wrap(self.duration));
            TaskPoll::Pending
        } else {
            TaskPoll::Ready(())
        }
    }
}

/// What a branch of [`Join2`] contributes to one outer poll: a branch that
/// has already produced its result is left untouched and does not run at
/// all; a branch that has not is polled exactly once, and its result slot
/// is filled exactly when that poll reported ready.
pub open spec fn join2_branch<X, A: Task<X>>(
    pre_task: A,
    pre_val: Option<A::Output>,
    pre_sched: MiniScheduler<X>,
    post_task: A,
    post_val: Option<A::Output>,
    post_sched: MiniScheduler<X>,
) -> bool {
    if pre_val is Some {
        post_task == pre_task && post_val == pre_val && post_sched == pre_sched
    } else {
        exists|r: TaskPoll<A::Output>|
            {
                &&& #[trigger] A::poll_spec(pre_task, pre_sched, post_task, post_sched, r)
                &&& post_val == (match r {
                    TaskPoll::Ready(v) => Some(v),
                    TaskPoll::Pending => None::<A::Output>,
                })
            }
    }
}

/// Runs two tasks "in parallel".
///
/// More precisely, each time the returned combinator is polled, it polls
/// `task1` if that has not yet produced a result, and then polls `task2`
/// if that has not yet produced a result — in this fixed left-to-right
/// order, so within one outer poll every side effect of the first branch
/// happens before every side effect of the second. Neither branch can
/// starve: each is polled on every outer poll until it finishes. Once both
/// have produced results, the combinator completes with the pair of them.
pub fn join2<X, T, U, A: Task<X, Output = T>, B: Task<X, Output = U>>(task1: A, task2: B) -> (r:
    Join2<A, B, T, U>)
    ensures
        r.spec_task1() == task1,
        r.spec_task2() == task2,
        r.spec_retval1() is None,
        r.spec_retval2() is None,
{
    Join2 { task1, task2, retval1: None, retval2: None }
}

/// One outer poll of [`Join2`], spelled out: the first branch runs before
/// the second, with `mid_sched` the scheduler state in between; `val1` and
/// `val2` are the result slots after the two branch steps; the combinator
/// reports ready exactly when both slots are filled, hands the pair out,
/// and clears the slots.
pub open spec fn join2_poll_parts<X, T, U, A: Task<X, Output = T>, B: Task<X, Output = U>>(
    pre: Join2<A, B, T, U>,
    pre_sched: MiniScheduler<X>,
    post: Join2<A, B, T, U>,
    post_sched: MiniScheduler<X>,
    r: TaskPoll<(T, U)>,
    mid_sched: MiniScheduler<X>,
    val1: Option<T>,
    val2: Option<U>,
) -> bool {
    &&& join2_branch(
        pre.spec_task1(),
        pre.spec_retval1(),
        pre_sched,
        post.spec_task1(),
        val1,
        mid_sched,
    )
    &&& join2_branch(
        pre.spec_task2(),
        pre.spec_retval2(),
        mid_sched,
        post.spec_task2(),
        val2,
        post_sched,
    )
    &&& match r {
        TaskPoll::Ready(pair) => {
            &&& val1 == Some(pair.0)
            &&& val2 == Some(pair.1)
            &&& post.spec_retval1() is None
            &&& post.spec_retval2() is None
        },
        TaskPoll::Pending => {
            &&& (val1 is None || val2 is None)
            &&& post.spec_retval1() == val1
            &&& post.spec_retval2() == val2
        },
    }
}

/// The task returned by [`join2`].
pub struct Join2<A, B, T, U> {
    task1: A,
    task2: B,
    retval1: Option<T>,
    retval2: Option<U>,
}

impl<A, B, T, U> Join2<A, B, T, U> {
    /// The first branch.
    pub closed spec fn spec_task1(&self) -> A {
        self.task1
    }

    /// The second branch.
    pub closed spec fn spec_task2(&self) -> B {
        self.task2
    }

    /// The stored result of the first branch, while waiting for the second.
    pub closed spec fn spec_retval1(&self) -> Option<T> {
        self.retval1
    }

    /// The stored result of the second branch, while waiting for the first.
    pub closed spec fn spec_retval2(&self) -> Option<U> {
        self.retval2
    }
}

/// Law: within one outer poll of a joined pair, the first branch's side
/// effects strictly precede the second branch's. Made concrete on the
/// scheduler's only observable effect: polling a fresh join of two sleeps
/// records the two requested durations in branch order, left before right,
/// and completes neither branch yet.
pub proof fn lemma_join2_orders_effects<X>(
    pre: Join2<SleepAtMost, SleepAtMost, (), ()>,
    pre_sched: MiniScheduler<X>,
    post: Join2<SleepAtMost, SleepAtMost, (), ()>,
    post_sched: MiniScheduler<X>,
    r: TaskPoll<((), ())>,
)
    requires
        <Join2<SleepAtMost, SleepAtMost, (), ()> as Task<X>>::poll_spec(
            pre,
            pre_sched,
            post,
            post_sched,
            r,
        ),
        pre.spec_retval1() is None,
        pre.spec_retval2() is None,
        !pre.spec_task1().spec_polled(),
        !pre.spec_task2().spec_polled(),
    ensures
        post_sched.spec_requests() == pre_sched.spec_requests().push(
            pre.spec_task1().spec_duration(),
        ).push(pre.spec_task2().spec_duration()),
        r == TaskPoll::<((), ())>::Pending,
{
    let (mid_sched, val1, val2) = choose|
        mid_sched: MiniScheduler<X>,
        val1: Option<()>,
        val2: Option<()>,
    | join2_poll_parts(pre, pre_sched, post, post_sched, r, mid_sched, val1, val2);
    assert(join2_branch(pre.spec_task1(), pre.spec_retval1(), pre_sched, post.spec_task1(), val1, mid_sched));
    let r1 = choose|r1: TaskPoll<()>|
        {
            &&& #[trigger] <SleepAtMost as Task<X>>::poll_spec(
                pre.spec_task1(),
                pre_sched,
                post.spec_task1(),
                mid_sched,
                r1,
            )
            &&& val1 == (match r1 {
                TaskPoll::Ready(v) => Some(v),
                TaskPoll::Pending => None::<()>,
            })
        };
    let r2 = choose|r2: TaskPoll<()>|
        {
            &&& #[trigger] <SleepAtMost as Task<X>>::poll_spec(
                pre.spec_task2(),
                mid_sched,
                post.spec_task2(),
                post_sched,
                r2,
            )
            &&& val2 == (match r2 {
                TaskPoll::Ready(v) => Some(v),
                TaskPoll::Pending => None::<()>,
            })
        };
    assert(mid_sched.spec_requests() == pre_sched.spec_requests().push(
        pre.spec_task1().spec_duration(),
    ));
    assert(post_sched.spec_requests() == mid_sched.spec_requests().push(
        pre.spec_task2().spec_duration(),
    ));
}

impl<X, T, U, A: Task<X, Output = T>, B: Task<X, Output = U>> Task<X> for Join2<A, B, T, U> {
    type Output = (T, U);

    /// One outer poll runs one poll step of each unfinished branch, the
    /// first branch strictly before the second (the intermediate scheduler
    /// state is witness to the order). The combinator reports ready exactly
    /// when both branches have produced results, hands the pair out, and
    /// clears the stored results.
    open spec fn poll_spec(
        pre: Self,
        pre_sched: MiniScheduler<X>,
        post: Self,
        post_sched: MiniScheduler<X>,
        r: TaskPoll<(T, U)>,
    ) -> bool {
        exists|mid_sched: MiniScheduler<X>, val1: Option<T>, val2: Option<U>|
            #[trigger] join2_poll_parts(pre, pre_sched, post, post_sched, r, mid_sched, val1, val2)
    }

    fn poll(&mut self, sched: &mut MiniScheduler<X>) -> (r: TaskPoll<(T, U)>) {
        let ghost pre = *self;
        let ghost pre_sched = *sched;
        let ghost mut poll1: TaskPoll<T> = TaskPoll::Pending;
        if self.retval1.is_none() {
            let res = self.task1.poll(sched);
            proof {
                poll1 = res;
            }
            if let TaskPoll::Ready(retval) = res {
                self.retval1 = Some(retval);
            }
        }
        let ghost mid_sched = *sched;
        let ghost val1 = self.retval1;
        let ghost mut poll2: TaskPoll<U> = TaskPoll::Pending;
        if self.retval2.is_none() {
            let res = self.task2.poll(sched);
            proof {
                poll2 = res;
            }
            if let TaskPoll::Ready(retval) = res {
                self.retval2 = Some(retval);
            }
        }
        let ghost val2 = self.retval2;
        proof {
            if pre.spec_retval1() is None {
                assert(A::poll_spec(pre.task1, pre_sched, self.task1, mid_sched, poll1));
            }
            if pre.spec_retval2() is None {
                assert(B::poll_spec(pre.task2, mid_sched, self.task2, *sched, poll2));
            }
            assert(join2_branch(pre.task1, pre.retval1, pre_sched, self.task1, val1, mid_sched));
            assert(join2_branch(pre.task2, pre.retval2, mid_sched, self.task2, val2, *sched));
        }
        if self.retval1.is_some() && self.retval2.is_some() {
            let retval1 = self.retval1.take().unwrap();
            let retval2 = self.retval2.take().unwrap();
            let r = TaskPoll::Ready((retval1, retval2));
            proof {
                assert(join2_poll_parts(pre, pre_sched, *self, *sched, r, mid_sched, val1, val2));
            }
            r
        } else {
            let r = TaskPoll::<(T, U)>::Pending;
            proof {
                assert(join2_poll_parts(pre, pre_sched, *self, *sched, r, mid_sched, val1, val2));
            }
            r
        }
    }
}

} // verus!
