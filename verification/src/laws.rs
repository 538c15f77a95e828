//! What holds of the pool across its operations.
use vstd::prelude::*;

use crate::pool::{count_down, count_up, JoinStep, PoolView, Received};

verus! {

/// Every step of the pool keeps the queue counter equal to the number of
/// queued jobs.
pub proof fn law_steps_keep_counter_exact<J>(s: PoolView<J>, job: J, panicking: bool)
    requires
        s.wf(),
        s.jobs.len() < usize::MAX,
    ensures
        s.after_execute(job).wf(),
        s.after_receive().wf(),
        s.after_finish().wf(),
        s.after_panic(panicking).wf(),
        s.after_close().wf(),
{
}

/// Whether `t` has the configuration of `s`: its number of workers, the
/// maximum of running jobs, and the workers' thread name and stack size.
pub open spec fn same_configuration<J>(s: PoolView<J>, t: PoolView<J>) -> bool {
    &&& t.num_threads == s.num_threads
    &&& t.max_threads == s.max_threads
    &&& t.thread_name == s.thread_name
    &&& t.stack_size == s.stack_size
}

/// No step changes the pool's configuration.
pub proof fn law_steps_keep_configuration<J>(s: PoolView<J>, job: J, panicking: bool)
    ensures
        same_configuration(s, s.after_execute(job)),
        same_configuration(s, s.after_receive()),
        same_configuration(s, s.after_finish()),
        same_configuration(s, s.after_panic(panicking)),
        same_configuration(s, s.after_close()),
{
}

/// Jobs are taken in the order they were submitted: a job submitted later
/// never overtakes one already queued.
pub proof fn law_later_job_does_not_overtake<J>(s: PoolView<J>, job: J)
    requires
        s.jobs.len() > 0,
    ensures
        s.after_execute(job).received() == s.received(),
        s.received() == Received::Job(s.jobs[0]),
{
}

/// Two jobs submitted to a pool with an empty queue are taken first the
/// one, then the other.
pub proof fn law_jobs_taken_in_order<J>(s: PoolView<J>, first: J, second: J)
    requires
        s.jobs.len() == 0,
    ensures
        s.after_execute(first).after_execute(second).received() == Received::Job(first),
        s.after_execute(first).after_execute(second).after_receive().received()
            == Received::Job(second),
{
    let t = s.after_execute(first).after_execute(second);
    assert(t.jobs =~= seq![first, second]);
    assert(t.after_receive().jobs =~= seq![second]);
}

/// Submitting a job to a pool with an empty queue, taking it and finishing
/// it leaves the pool as it was: the job taken is the one submitted.
pub proof fn law_job_round_trip<J>(s: PoolView<J>, job: J)
    requires
        s.wf(),
        s.jobs.len() == 0,
    ensures
        s.after_execute(job).received() == Received::Job(job),
        s.after_execute(job).after_receive().after_finish() == s,
{
    let t = s.after_execute(job).after_receive().after_finish();
    assert(t.jobs =~= s.jobs);
}

/// Taking a queued job moves it from the queued count to the running
/// count; finishing it gives its place back.
pub proof fn law_take_then_finish_restores_running<J>(s: PoolView<J>)
    requires
        s.wf(),
        s.jobs.len() > 0,
    ensures
        s.after_receive().queued == s.queued - 1,
        s.after_receive().active == count_up(s.active),
        s.after_receive().after_finish().active == s.active,
        s.after_receive().after_finish().queued == s.queued - 1,
        s.after_receive().after_finish().panics == s.panics,
{
}

/// A job that panics gives its place in the running count back as a
/// finished one does, and is counted as a panic.
pub proof fn law_panicked_job_is_counted<J>(s: PoolView<J>)
    requires
        s.wf(),
        s.jobs.len() > 0,
    ensures
        s.after_receive().after_panic(true).active == s.active,
        s.after_receive().after_panic(true).queued == s.queued - 1,
        s.after_receive().after_panic(true).panics == count_up(s.panics),
        s.after_receive().after_panic(true).jobs == s.jobs.drop_first(),
{
}

/// `join` returns exactly when no job is queued or running.
pub proof fn law_join_returns_only_when_idle<J>(s: PoolView<J>)
    ensures
        (s.join_step() == JoinStep::Return) <==> (s.queued == 0 && s.active == 0),
{
}

/// While the queue is open a worker is never told to stop: with no job
/// queued it waits.
pub proof fn law_open_queue_never_disconnects<J>(s: PoolView<J>)
    requires
        !s.closed,
    ensures
        s.received() != Received::<J>::Disconnected,
        s.jobs.len() == 0 ==> s.received() == Received::<J>::Empty,
{
}

/// Jobs queued before the queue closes are still handed out; a worker is
/// told to stop only once the queue is closed and empty.
pub proof fn law_close_delivers_queued_jobs<J>(s: PoolView<J>)
    ensures
        s.jobs.len() > 0 ==> s.after_close().received() == Received::Job(s.jobs[0]),
        s.after_close().jobs.len() == 0 ==> s.after_close().received()
            == Received::<J>::Disconnected,
{
}

/// A pool that runs no more jobs than it has workers never stops a worker
/// at the top of its loop while some worker is idle.
pub proof fn law_idle_worker_goes_on<J>(s: PoolView<J>)
    requires
        s.max_threads == s.num_threads,
        s.active < s.num_threads,
    ensures
        s.may_continue(),
{
}

/// The state after `k` queued jobs have each been taken and finished.
pub open spec fn run_queued<J>(s: PoolView<J>, k: nat) -> PoolView<J>
    decreases k,
{
    if k == 0 {
        s
    } else {
        run_queued(s.after_receive().after_finish(), (k - 1) as nat)
    }
}

/// Once every queued job of a pool with none running has been taken and
/// finished one after another, nothing is left: the queue is empty, no job
/// runs, and `join` returns.
pub proof fn law_drained_pool_joins<J>(s: PoolView<J>)
    requires
        s.wf(),
        s.active == 0,
    ensures
        run_queued(s, s.jobs.len()).jobs.len() == 0,
        run_queued(s, s.jobs.len()).active == 0,
        run_queued(s, s.jobs.len()).join_step() == JoinStep::Return,
    decreases s.jobs.len(),
{
    if s.jobs.len() > 0 {
        let t = s.after_receive().after_finish();
        assert(t.jobs.len() == s.jobs.len() - 1);
        law_drained_pool_joins(t);
    }
}

/// The last running job to finish, with nothing queued, wakes the threads
/// waiting in `join`, which then return.
pub proof fn law_last_job_wakes_joiners<J>(s: PoolView<J>)
    requires
        s.wf(),
        s.jobs.len() == 0,
        s.active == 1,
    ensures
        !s.after_finish().has_work(),
        s.after_finish().join_step() == JoinStep::Return,
        count_down(s.active) == 0,
{
}

/// Submitting a job puts it at the back of the queue, whatever the pool's
/// state: the queue grows by exactly that job, behind every job already
/// queued, and nothing else about the pool changes but the queued count.
pub proof fn law_execute_appends<J>(s: PoolView<J>, job: J)
    ensures
        s.after_execute(job).jobs == s.jobs.push(job),
        s.after_execute(job).queued == s.queued + 1 || s.queued == usize::MAX,
        s.after_execute(job).active == s.active,
        s.after_execute(job).closed == s.closed,
        s.after_execute(job).panics == s.panics,
        forall|i: int|
            0 <= i < s.jobs.len() ==> #[trigger] s.after_execute(job).jobs[i] == s.jobs[i],
{
}

/// A worker that finds no job queued changes nothing: not the running
/// count, not the queue, not whether it is closed.
pub proof fn law_receive_on_empty_queue_changes_nothing<J>(s: PoolView<J>)
    requires
        s.jobs.len() == 0,
    ensures
        s.after_receive() == s,
        s.after_receive().active == s.active,
{
}

/// A worker that finds a job takes the oldest: the queue loses exactly its
/// front, the running count goes up by one, and the queue stays open or
/// closed as it was.
pub proof fn law_receive_takes_front<J>(s: PoolView<J>)
    requires
        s.wf(),
        s.jobs.len() > 0,
        s.active < usize::MAX,
    ensures
        s.received() == Received::Job(s.jobs[0]),
        s.after_receive().jobs == s.jobs.subrange(1, s.jobs.len() as int),
        s.after_receive().active == s.active + 1,
        s.after_receive().closed == s.closed,
        s.after_receive().panics == s.panics,
{
}

/// Finishing a job frees one running slot and touches nothing else.
pub proof fn law_finish_frees_one_slot<J>(s: PoolView<J>)
    requires
        s.active > 0,
    ensures
        s.after_finish().active == s.active - 1,
        s.after_finish().jobs == s.jobs,
        s.after_finish().closed == s.closed,
        s.after_finish().panics == s.panics,
{
}

/// A panicking job frees its running slot and is counted; the queue, and
/// whether it is open, stay as they were, so later jobs still run.
pub proof fn law_panic_keeps_queue_open<J>(s: PoolView<J>)
    requires
        s.active > 0,
        s.panics < usize::MAX,
    ensures
        s.after_panic(true).active == s.active - 1,
        s.after_panic(true).panics == s.panics + 1,
        s.after_panic(true).jobs == s.jobs,
        s.after_panic(true).closed == s.closed,
        !s.closed ==> s.after_panic(true).received() != Received::<J>::Disconnected,
{
}

/// Closing shuts the queue in every state, whatever is queued or running,
/// and keeps the queued jobs: once they are taken, a worker that asks is
/// told to stop.
pub proof fn law_close_shuts_queue<J>(s: PoolView<J>)
    ensures
        s.after_close().closed,
        s.after_close().jobs == s.jobs,
        s.after_close().active == s.active,
        s.after_close().after_receive().closed,
        s.after_close().after_receive().after_finish().closed,
        s.jobs.len() <= 1 ==> s.after_close().after_receive().received()
            == Received::<J>::Disconnected,
{
}

} // verus!
