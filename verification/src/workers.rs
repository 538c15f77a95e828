//! The pool together with its workers: which workers are running a job.
//! Proved here, over the same steps that the pool's operations take, are
//! the accounting of running jobs and the bound on how many run at once.
use vstd::prelude::*;

use crate::pool::{count_down, count_up, JoinStep, PoolView, Received, ThreadPool};

verus! {

/// The number of workers marked as running a job.
pub open spec fn busy_count(busy: Seq<bool>) -> nat
    decreases busy.len(),
{
    if busy.len() == 0 {
        0
    } else {
        busy_count(busy.drop_last()) + if busy.last() { 1nat } else { 0nat }
    }
}

proof fn lemma_busy_count_bounded(busy: Seq<bool>)
    ensures
        busy_count(busy) <= busy.len(),
    decreases busy.len(),
{
    if busy.len() > 0 {
        lemma_busy_count_bounded(busy.drop_last());
    }
}

proof fn lemma_busy_count_idle(busy: Seq<bool>, i: int)
    requires
        0 <= i < busy.len(),
        !busy[i],
    ensures
        busy_count(busy) < busy.len(),
    decreases busy.len(),
{
    lemma_busy_count_bounded(busy.drop_last());
    if i < busy.len() - 1 {
        lemma_busy_count_idle(busy.drop_last(), i);
    }
}

proof fn lemma_busy_count_busy(busy: Seq<bool>, i: int)
    requires
        0 <= i < busy.len(),
        busy[i],
    ensures
        busy_count(busy) > 0,
    decreases busy.len(),
{
    if i < busy.len() - 1 {
        lemma_busy_count_busy(busy.drop_last(), i);
    }
}

proof fn lemma_busy_count_zero(busy: Seq<bool>)
    requires
        busy_count(busy) == 0,
    ensures
        forall|i: int| 0 <= i < busy.len() ==> !busy[i],
{
    assert forall|i: int| 0 <= i < busy.len() implies !busy[i] by {
        if busy[i] {
            lemma_busy_count_busy(busy, i);
        }
    }
}

proof fn lemma_busy_count_none(n: nat)
    ensures
        busy_count(Seq::new(n, |i: int| false)) == 0,
    decreases n,
{
    if n > 0 {
        let busy = Seq::new(n, |i: int| false);
        assert(busy.drop_last() =~= Seq::new((n - 1) as nat, |i: int| false));
        lemma_busy_count_none((n - 1) as nat);
    }
}

proof fn lemma_busy_count_update(busy: Seq<bool>, i: int, v: bool)
    requires
        0 <= i < busy.len(),
    ensures
        busy_count(busy.update(i, v)) + (if busy[i] { 1int } else { 0int }) == busy_count(busy)
            + (if v { 1int } else { 0int }),
    decreases busy.len(),
{
    let u = busy.update(i, v);
    if i < busy.len() - 1 {
        assert(u.drop_last() =~= busy.drop_last().update(i, v));
        lemma_busy_count_update(busy.drop_last(), i, v);
    } else {
        assert(u.drop_last() =~= busy.drop_last());
    }
}

/// A pool and its workers: `busy[i]` tells whether worker `i` is running a
/// job it took and has not finished.
pub struct SystemView<J> {
    pub pool: PoolView<J>,
    pub busy: Seq<bool>,
}

/// What can happen next to a pool and its workers.
pub enum SystemEvent<J> {
    /// A job is submitted with `execute`.
    Submit(J),
    /// Worker `i`, idle, passes its loop check and takes the oldest job.
    Take(int),
    /// Worker `i`, idle, passes its loop check and finds no job queued: it
    /// waits, or stops once the queue is closed.
    Poll(int),
    /// Worker `i` finishes its job.
    Finish(int),
    /// Worker `i`'s job panics; its sentinel releases it and a new idle
    /// worker takes its place.
    Panic(int),
    /// No more jobs can be submitted.
    Close,
}

impl<J> SystemView<J> {
    /// A pool just started with `workers` workers, none of them busy.
    pub open spec fn initial(
        workers: usize,
        thread_name: Option<Seq<char>>,
        stack_size: Option<usize>,
    ) -> SystemView<J> {
        SystemView {
            pool: ThreadPool::<J>::initial(workers, thread_name, stack_size),
            busy: Seq::new(workers as nat, |i: int| false),
        }
    }

    /// The pool counts exactly the jobs that are queued and those taken and
    /// not yet finished, and the running jobs never outnumber the workers.
    pub open spec fn inv(self) -> bool {
        &&& self.pool.wf()
        &&& self.pool.num_threads > 0
        &&& self.busy.len() == self.pool.num_threads
        &&& self.pool.max_threads == self.pool.num_threads
        &&& self.pool.active == busy_count(self.busy)
    }

    pub open spec fn idle(self, i: int) -> bool {
        0 <= i < self.busy.len() && !self.busy[i]
    }

    pub open spec fn running(self, i: int) -> bool {
        0 <= i < self.busy.len() && self.busy[i]
    }

    pub open spec fn enabled(self, ev: SystemEvent<J>) -> bool {
        match ev {
            SystemEvent::Submit(_) => self.pool.jobs.len() < usize::MAX,
            SystemEvent::Take(i) => self.idle(i) && self.pool.may_continue()
                && self.pool.jobs.len() > 0,
            SystemEvent::Poll(i) => self.idle(i) && self.pool.may_continue()
                && self.pool.jobs.len() == 0,
            SystemEvent::Finish(i) => self.running(i),
            SystemEvent::Panic(i) => self.running(i),
            SystemEvent::Close => true,
        }
    }

    pub open spec fn apply(self, ev: SystemEvent<J>) -> SystemView<J> {
        match ev {
            SystemEvent::Submit(job) => SystemView { pool: self.pool.after_execute(job), ..self },
            SystemEvent::Take(i) => SystemView {
                pool: self.pool.after_receive(),
                busy: self.busy.update(i, true),
            },
            SystemEvent::Poll(_) => SystemView { pool: self.pool.after_receive(), ..self },
            SystemEvent::Finish(i) => SystemView {
                pool: self.pool.after_finish(),
                busy: self.busy.update(i, false),
            },
            SystemEvent::Panic(i) => SystemView {
                pool: self.pool.after_panic(true),
                busy: self.busy.update(i, false),
            },
            SystemEvent::Close => SystemView { pool: self.pool.after_close(), ..self },
        }
    }

    /// Whether each event of `evs`, in turn, can happen.
    pub open spec fn can_run(self, evs: Seq<SystemEvent<J>>) -> bool
        decreases evs.len(),
    {
        evs.len() == 0 || (self.enabled(evs[0]) && self.apply(evs[0]).can_run(evs.drop_first()))
    }

    /// The jobs handed out by the `Take` events of `evs`, in turn.
    pub open spec fn taken(self, evs: Seq<SystemEvent<J>>) -> Seq<J>
        decreases evs.len(),
    {
        if evs.len() == 0 {
            Seq::empty()
        } else {
            let first = if evs[0] is Take { seq![self.pool.jobs[0]] } else { Seq::empty() };
            first + self.apply(evs[0]).taken(evs.drop_first())
        }
    }

    /// The jobs submitted by the `Submit` events of `evs`, in turn.
    pub open spec fn submitted(evs: Seq<SystemEvent<J>>) -> Seq<J>
        decreases evs.len(),
    {
        if evs.len() == 0 {
            Seq::empty()
        } else {
            let first = match evs[0] {
                SystemEvent::Submit(job) => seq![job],
                _ => Seq::empty(),
            };
            first + Self::submitted(evs.drop_first())
        }
    }

    /// Whether `evs` holds a `Close` event.
    pub open spec fn closes(evs: Seq<SystemEvent<J>>) -> bool
        decreases evs.len(),
    {
        evs.len() > 0 && (evs[0] is Close || Self::closes(evs.drop_first()))
    }

    /// The state after the events of `evs`, in turn.
    pub open spec fn run(self, evs: Seq<SystemEvent<J>>) -> SystemView<J>
        decreases evs.len(),
    {
        if evs.len() == 0 {
            self
        } else {
            self.apply(evs[0]).run(evs.drop_first())
        }
    }
}

/// A pool started with at least one worker meets the invariant.
pub proof fn law_initial_meets_invariant<J>(
    workers: usize,
    thread_name: Option<Seq<char>>,
    stack_size: Option<usize>,
)
    requires
        workers > 0,
    ensures
        SystemView::<J>::initial(workers, thread_name, stack_size).inv(),
{
    lemma_busy_count_none(workers as nat);
}

/// Every event that can happen keeps the invariant.
pub proof fn law_events_keep_invariant<J>(s: SystemView<J>, ev: SystemEvent<J>)
    requires
        s.inv(),
        s.enabled(ev),
    ensures
        s.apply(ev).inv(),
{
    match ev {
        SystemEvent::Submit(_) => {},
        SystemEvent::Take(i) => {
            lemma_busy_count_idle(s.busy, i);
            lemma_busy_count_update(s.busy, i, true);
            assert(s.pool.active < usize::MAX);
            assert(count_up(s.pool.active) == s.pool.active + 1);
        },
        SystemEvent::Poll(_) => {},
        SystemEvent::Finish(i) => {
            lemma_busy_count_busy(s.busy, i);
            lemma_busy_count_update(s.busy, i, false);
            assert(count_down(s.pool.active) == s.pool.active - 1);
        },
        SystemEvent::Panic(i) => {
            lemma_busy_count_busy(s.busy, i);
            lemma_busy_count_update(s.busy, i, false);
            assert(count_down(s.pool.active) == s.pool.active - 1);
        },
        SystemEvent::Close => {},
    }
}

/// Any run of events from a state that meets the invariant ends in one
/// that meets it.
pub proof fn law_runs_keep_invariant<J>(s: SystemView<J>, evs: Seq<SystemEvent<J>>)
    requires
        s.inv(),
        s.can_run(evs),
    ensures
        s.run(evs).inv(),
        s.run(evs).pool.num_threads == s.pool.num_threads,
    decreases evs.len(),
{
    if evs.len() > 0 {
        law_events_keep_invariant(s, evs[0]);
        law_runs_keep_invariant(s.apply(evs[0]), evs.drop_first());
    }
}

/// The running count is the number of workers running a job, so it never
/// exceeds the number of workers, and a worker that is not running a job
/// always passes its loop check: no worker leaves the pool that way.
pub proof fn law_running_count_bound<J>(s: SystemView<J>, i: int)
    requires
        s.inv(),
    ensures
        s.pool.active <= s.pool.num_threads,
        s.idle(i) ==> s.pool.may_continue(),
{
    lemma_busy_count_bounded(s.busy);
    if s.idle(i) {
        lemma_busy_count_idle(s.busy, i);
    }
}

/// The pool has work exactly when a job is queued or some worker runs a job
/// it took: `join` returns only once every submitted job has been taken and
/// has finished or panicked.
pub proof fn law_join_waits_for_taken_jobs<J>(s: SystemView<J>)
    requires
        s.inv(),
    ensures
        (s.pool.join_step() == JoinStep::Return) <==> (s.pool.jobs.len() == 0 && forall|i: int|
            0 <= i < s.busy.len() ==> !s.busy[i]),
        forall|i: int| s.running(i) ==> s.pool.has_work(),
{
    if s.pool.active == 0 {
        lemma_busy_count_zero(s.busy);
    }
    assert forall|i: int| s.running(i) implies s.pool.has_work() by {
        lemma_busy_count_busy(s.busy, i);
    }
    if forall|i: int| 0 <= i < s.busy.len() ==> !s.busy[i] {
        if busy_count(s.busy) > 0 {
            lemma_busy_count_nonzero_has_busy(s.busy);
        }
    }
}

proof fn lemma_busy_count_nonzero_has_busy(busy: Seq<bool>)
    requires
        busy_count(busy) > 0,
    ensures
        exists|i: int| 0 <= i < busy.len() && busy[i],
    decreases busy.len(),
{
    if busy.last() {
        assert(busy[busy.len() - 1]);
    } else {
        lemma_busy_count_nonzero_has_busy(busy.drop_last());
        let i = choose|i: int| 0 <= i < busy.drop_last().len() && busy.drop_last()[i];
        assert(busy[i]);
    }
}

/// In every state that a pool started with at least one worker reaches,
/// the running jobs never outnumber the workers, no idle worker leaves at
/// its loop check, and `join` returns only when nothing is queued and no
/// worker runs a job.
pub proof fn law_reachable_states<J>(
    workers: usize,
    thread_name: Option<Seq<char>>,
    stack_size: Option<usize>,
    evs: Seq<SystemEvent<J>>,
    i: int,
)
    requires
        workers > 0,
        SystemView::<J>::initial(workers, thread_name, stack_size).can_run(evs),
    ensures
        ({
            let s = SystemView::<J>::initial(workers, thread_name, stack_size).run(evs);
            &&& s.inv()
            &&& s.pool.active <= workers
            &&& s.idle(i) ==> s.pool.may_continue()
            &&& (s.pool.join_step() == JoinStep::Return) <==> (s.pool.jobs.len() == 0
                && forall|j: int| 0 <= j < s.busy.len() ==> !s.busy[j])
        }),
{
    let s0 = SystemView::<J>::initial(workers, thread_name, stack_size);
    law_initial_meets_invariant::<J>(workers, thread_name, stack_size);
    law_runs_keep_invariant(s0, evs);
    let s = s0.run(evs);
    law_running_count_bound(s, i);
    law_join_waits_for_taken_jobs(s);
}

/// Whether every event of `evs` is a worker taking or finishing a job: no
/// job is submitted and the queue is not closed.
pub open spec fn only_takes_and_finishes<J>(evs: Seq<SystemEvent<J>>) -> bool {
    forall|k: int| 0 <= k < evs.len() ==> (#[trigger] evs[k] is Take || evs[k] is Finish)
}

/// From every state that meets the invariant, with no more jobs submitted,
/// the workers can finish the jobs they run and then take and finish every
/// queued job: the returned run of events can happen, hands out each queued
/// job exactly once and in the order it was submitted, and ends in a state
/// where nothing is queued, no worker is busy, and `join` returns.
pub proof fn law_pool_drains<J>(s: SystemView<J>) -> (evs: Seq<SystemEvent<J>>)
    requires
        s.inv(),
    ensures
        s.can_run(evs),
        only_takes_and_finishes(evs),
        s.taken(evs) == s.pool.jobs,
        s.run(evs).pool.jobs.len() == 0,
        forall|i: int| 0 <= i < s.run(evs).busy.len() ==> !s.run(evs).busy[i],
        s.run(evs).pool.join_step() == JoinStep::Return,
    decreases busy_count(s.busy) + 2 * s.pool.jobs.len(),
{
    if exists|i: int| s.running(i) {
        let i = choose|i: int| s.running(i);
        let e = SystemEvent::<J>::Finish(i);
        law_events_keep_invariant(s, e);
        lemma_busy_count_update(s.busy, i, false);
        let rest = law_pool_drains(s.apply(e));
        let evs = seq![e] + rest;
        assert(evs[0] == e);
        assert(evs.drop_first() =~= rest);
        assert(s.run(evs) == s.apply(e).run(rest));
        assert(s.taken(evs) =~= s.apply(e).taken(rest));
        assert forall|k: int| 0 <= k < evs.len() implies (#[trigger] evs[k] is Take
            || evs[k] is Finish) by {
            if k > 0 {
                assert(evs[k] == rest[k - 1]);
            }
        }
        evs
    } else if s.pool.jobs.len() > 0 {
        assert(!s.running(0));
        assert(s.idle(0));
        law_running_count_bound(s, 0);
        let e = SystemEvent::<J>::Take(0);
        law_events_keep_invariant(s, e);
        lemma_busy_count_update(s.busy, 0, true);
        let rest = law_pool_drains(s.apply(e));
        let evs = seq![e] + rest;
        assert(evs[0] == e);
        assert(evs.drop_first() =~= rest);
        assert(s.run(evs) == s.apply(e).run(rest));
        assert(s.apply(e).pool.jobs =~= s.pool.jobs.drop_first());
        assert(s.taken(evs) =~= seq![s.pool.jobs[0]] + s.apply(e).taken(rest));
        assert(s.taken(evs) =~= s.pool.jobs);
        assert forall|k: int| 0 <= k < evs.len() implies (#[trigger] evs[k] is Take
            || evs[k] is Finish) by {
            if k > 0 {
                assert(evs[k] == rest[k - 1]);
            }
        }
        evs
    } else {
        let evs = Seq::<SystemEvent<J>>::empty();
        assert forall|i: int| 0 <= i < s.busy.len() implies !s.busy[i] by {
            assert(!s.running(i));
        }
        assert(s.taken(evs) =~= s.pool.jobs);
        law_join_waits_for_taken_jobs(s);
        evs
    }
}

/// Every state that a pool started with at least one worker reaches can be
/// drained as `law_pool_drains` says: without further submissions, each
/// queued job is taken once, in order, and `join` then returns.
pub proof fn law_reachable_pool_drains<J>(
    workers: usize,
    thread_name: Option<Seq<char>>,
    stack_size: Option<usize>,
    evs: Seq<SystemEvent<J>>,
) -> (drain: Seq<SystemEvent<J>>)
    requires
        workers > 0,
        SystemView::<J>::initial(workers, thread_name, stack_size).can_run(evs),
    ensures
        ({
            let s = SystemView::<J>::initial(workers, thread_name, stack_size).run(evs);
            &&& s.can_run(drain)
            &&& only_takes_and_finishes(drain)
            &&& s.taken(drain) == s.pool.jobs
            &&& s.run(drain).pool.join_step() == JoinStep::Return
        }),
{
    let s0 = SystemView::<J>::initial(workers, thread_name, stack_size);
    law_initial_meets_invariant::<J>(workers, thread_name, stack_size);
    law_runs_keep_invariant(s0, evs);
    law_pool_drains(s0.run(evs))
}

/// Jobs leave the queue in the order they entered it, whatever the workers
/// do: over any run of events, the jobs handed out followed by those still
/// queued are the jobs queued at the start followed by the jobs submitted.
/// So no job is lost, none is handed out twice, and none overtakes a job
/// queued before it.
pub proof fn law_runs_keep_submission_order<J>(s: SystemView<J>, evs: Seq<SystemEvent<J>>)
    requires
        s.can_run(evs),
    ensures
        s.taken(evs) + s.run(evs).pool.jobs == s.pool.jobs + SystemView::<J>::submitted(evs),
    decreases evs.len(),
{
    if evs.len() > 0 {
        let e = evs[0];
        let rest = evs.drop_first();
        let t = s.apply(e);
        law_runs_keep_submission_order(t, rest);
        let tail = t.taken(rest) + t.run(rest).pool.jobs;
        match e {
            SystemEvent::Submit(job) => {
                assert(t.pool.jobs == s.pool.jobs.push(job));
                assert(s.taken(evs) + s.run(evs).pool.jobs =~= tail);
                assert(SystemView::<J>::submitted(evs) =~= seq![job]
                    + SystemView::<J>::submitted(rest));
                assert(s.pool.jobs + SystemView::<J>::submitted(evs) =~= s.pool.jobs.push(job)
                    + SystemView::<J>::submitted(rest));
            },
            SystemEvent::Take(_) => {
                assert(t.pool.jobs == s.pool.jobs.drop_first());
                assert(s.taken(evs) + s.run(evs).pool.jobs =~= seq![s.pool.jobs[0]] + tail);
                assert(SystemView::<J>::submitted(evs) =~= SystemView::<J>::submitted(rest));
                assert(s.pool.jobs =~= seq![s.pool.jobs[0]] + s.pool.jobs.drop_first());
                assert(seq![s.pool.jobs[0]] + (s.pool.jobs.drop_first() + SystemView::<J>::submitted(
                    rest,
                )) =~= s.pool.jobs + SystemView::<J>::submitted(rest));
            },
            _ => {
                assert(t.pool.jobs == s.pool.jobs);
                assert(s.taken(evs) + s.run(evs).pool.jobs =~= tail);
                assert(SystemView::<J>::submitted(evs) =~= SystemView::<J>::submitted(rest));
            },
        }
    } else {
        assert(s.taken(evs) + s.run(evs).pool.jobs =~= s.pool.jobs + SystemView::<J>::submitted(
            evs,
        ));
    }
}

/// Only closing shuts the queue, and nothing opens it again: after any run
/// of events the queue is closed exactly when it was closed before or the
/// run closed it. A worker that panics, one that finds no job, or any other
/// step leaves it as it was.
pub proof fn law_only_close_shuts_queue<J>(s: SystemView<J>, evs: Seq<SystemEvent<J>>)
    ensures
        s.run(evs).pool.closed == (s.pool.closed || SystemView::<J>::closes(evs)),
    decreases evs.len(),
{
    if evs.len() > 0 {
        let e = evs[0];
        law_only_close_shuts_queue(s.apply(e), evs.drop_first());
        match e {
            SystemEvent::Close => assert(s.apply(e).pool.closed),
            _ => assert(s.apply(e).pool.closed == s.pool.closed),
        }
    }
}

/// A worker that asks for a job on a closed, empty queue is told to stop;
/// on an open queue it is never told to stop. So after the pool is shut
/// and its queue drained, every worker stops, and until it is shut none
/// does.
pub proof fn law_stop_exactly_when_shut_and_drained<J>(s: SystemView<J>)
    ensures
        (s.pool.received() == Received::<J>::Disconnected) <==> (s.pool.closed
            && s.pool.jobs.len() == 0),
        (s.pool.received() == Received::<J>::Empty) <==> (!s.pool.closed && s.pool.jobs.len()
            == 0),
{
}

} // verus!
