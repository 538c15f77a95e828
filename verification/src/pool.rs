use vstd::prelude::*;

use std::collections::VecDeque;

use crate::builder::{name_view, PoolBuilder};

verus! {

/// One step up of a shared counter: the counters of the pool wrap around,
/// as the atomic increments they stand for do.
pub open spec fn count_up(x: usize) -> usize {
    if x == usize::MAX { 0 } else { (x + 1) as usize }
}

/// One step down of a shared counter, wrapping below zero.
pub open spec fn count_down(x: usize) -> usize {
    if x == 0 { usize::MAX } else { (x - 1) as usize }
}

/// What a worker gets when it asks the pool for its next job.
pub enum Received<J> {
    /// The oldest queued job; the worker now runs it.
    Job(J),
    /// No job is queued yet: the worker waits for one.
    Empty,
    /// No job is queued and no more can come: the worker stops.
    Disconnected,
}

/// What `join` decides on the state it sees.
#[derive(PartialEq, Eq, Structural, Clone, Copy, Debug)]
pub enum JoinStep {
    /// No job is queued or running: `join` returns.
    Return,
    /// Work remains: `join` waits until it is woken, then asks again.
    Wait,
}

/// What a finished worker leaves to do for it.
#[derive(PartialEq, Eq, Structural, Clone, Copy, Debug)]
pub struct ExitAction {
    /// Wake every thread waiting in `join`.
    pub notify_all: bool,
    /// Start a new worker in place of this one.
    pub respawn: bool,
}

/// The state of a pool, as plain values.
pub struct PoolView<J> {
    pub thread_name: Option<Seq<char>>,
    pub stack_size: Option<usize>,
    /// Submitted jobs that no worker has taken yet, oldest first.
    pub jobs: Seq<J>,
    /// The number of jobs waiting to be taken.
    pub queued: usize,
    /// The number of jobs being run.
    pub active: usize,
    /// A worker stops before taking a job once this many are running.
    pub max_threads: usize,
    /// The number of workers that ended in a panic.
    pub panics: usize,
    /// The number of workers the pool starts.
    pub num_threads: usize,
    /// Set once no more jobs can be submitted.
    pub closed: bool,
}

impl<J> PoolView<J> {
    /// The queue counter counts exactly the queued jobs.
    pub open spec fn wf(self) -> bool {
        self.queued == self.jobs.len()
    }

    pub open spec fn has_work(self) -> bool {
        self.queued > 0 || self.active > 0
    }

    pub open spec fn join_step(self) -> JoinStep {
        if self.has_work() { JoinStep::Wait } else { JoinStep::Return }
    }

    pub open spec fn after_execute(self, job: J) -> PoolView<J> {
        PoolView { jobs: self.jobs.push(job), queued: (self.queued + 1) as usize, ..self }
    }

    pub open spec fn may_continue(self) -> bool {
        self.active < self.max_threads
    }

    pub open spec fn received(self) -> Received<J> {
        if self.jobs.len() > 0 {
            Received::Job(self.jobs[0])
        } else if self.closed {
            Received::Disconnected
        } else {
            Received::Empty
        }
    }

    pub open spec fn after_receive(self) -> PoolView<J> {
        if self.jobs.len() > 0 {
            PoolView {
                jobs: self.jobs.drop_first(),
                queued: (self.queued - 1) as usize,
                active: count_up(self.active),
                ..self
            }
        } else {
            self
        }
    }

    pub open spec fn after_finish(self) -> PoolView<J> {
        PoolView { active: count_down(self.active), ..self }
    }

    pub open spec fn after_panic(self, panicking: bool) -> PoolView<J> {
        PoolView {
            active: count_down(self.active),
            panics: if panicking { count_up(self.panics) } else { self.panics },
            ..self
        }
    }

    pub open spec fn after_close(self) -> PoolView<J> {
        PoolView { closed: true, ..self }
    }
}

/// The shared state of a thread pool: its configuration, the queue of
/// submitted jobs, and the counters that the workers and `join` decide on.
pub struct ThreadPool<J> {
    name: Option<String>,
    stack_size: Option<usize>,
    jobs: VecDeque<J>,
    active_count: usize,
    max_thread_count: usize,
    panic_count: usize,
    num_threads: usize,
    closed: bool,
}

impl<J> View for ThreadPool<J> {
    type V = PoolView<J>;

    closed spec fn view(&self) -> PoolView<J> {
        PoolView {
            thread_name: name_view(self.name),
            stack_size: self.stack_size,
            jobs: self.jobs@,
            queued: self.jobs.len(),
            active: self.active_count,
            max_threads: self.max_thread_count,
            panics: self.panic_count,
            num_threads: self.num_threads,
            closed: self.closed,
        }
    }
}

impl<J> ThreadPool<J> {

    /// The queue counter of every pool counts exactly its queued jobs.
    pub proof fn lemma_well_formed(&self)
        ensures
            self@.wf(),
    {
    }

    /// The state of a pool that was just started with `workers` workers.
    pub open spec fn initial(
        workers: usize,
        thread_name: Option<Seq<char>>,
        stack_size: Option<usize>,
    ) -> PoolView<J> {
        PoolView {
            thread_name,
            stack_size,
            jobs: Seq::empty(),
            queued: 0,
            active: 0,
            max_threads: workers,
            panics: 0,
            num_threads: workers,
            closed: false,
        }
    }

    pub(crate) fn start(workers: usize, name: Option<String>, stack_size: Option<usize>) -> (pool:
        Self)
        ensures
            pool@.wf(),
            pool@ == Self::initial(workers, name_view(name), stack_size),
    {
        ThreadPool {
            name,
            stack_size,
            jobs: VecDeque::new(),
            active_count: 0,
            max_thread_count: workers,
            panic_count: 0,
            num_threads: workers,
            closed: false,
        }
    }

    /// A pool of `num_threads` workers, with the thread name and stack size
    /// that std chooses; zero workers is refused.
    pub fn new(num_threads: usize) -> (pool: Self)
        requires
            num_threads > 0,
        ensures
            pool@.wf(),
            pool@ == Self::initial(num_threads, None, None),
    {
        PoolBuilder::new().num_threads(num_threads).build()
    }

    /// Whether any job is queued or running.
    pub fn has_work(&self) -> (r: bool)
        ensures
            r == self@.has_work(),
    {
        self.jobs.len() > 0 || self.active_count > 0
    }

    /// Whether the threads waiting in `join` are to be woken: exactly when
    /// no job is queued or running.
    pub fn no_work_notify_all(&self) -> (r: bool)
        ensures
            r == !self@.has_work(),
    {
        !self.has_work()
    }

    /// Queues a job behind the ones already submitted.
    pub fn execute(&mut self, job: J)
        requires
            old(self)@.jobs.len() < usize::MAX,
        ensures
            final(self)@.wf(),
            final(self)@ == old(self)@.after_execute(job),
    {
        self.jobs.push_back(job);
    }

    /// What `join` does: return when no job is queued or running, wait
    /// otherwise.
    pub fn join(&self) -> (step: JoinStep)
        ensures
            step == self@.join_step(),
    {
        if self.has_work() { JoinStep::Wait } else { JoinStep::Return }
    }

    /// Checked by a worker before it asks for a job: it goes on only while
    /// fewer than the maximum number of jobs are running.
    pub fn worker_may_continue(&self) -> (r: bool)
        ensures
            r == self@.may_continue(),
    {
        self.active_count < self.max_thread_count
    }

    /// A worker asks for the next job. The oldest queued job is handed out
    /// and counted as running; with none queued the worker waits, or stops
    /// once the queue is closed.
    pub fn receive(&mut self) -> (r: Received<J>)
        ensures
            final(self)@.wf(),
            r == old(self)@.received(),
            final(self)@ == old(self)@.after_receive(),
    {
        match self.jobs.pop_front() {
            Some(job) => {
                self.active_count = self.active_count.wrapping_add(1);
                Received::Job(job)
            },
            None => {
                if self.closed {
                    Received::Disconnected
                } else {
                    Received::Empty
                }
            },
        }
    }

    /// A worker has finished its job. The result says whether to wake the
    /// threads waiting in `join`.
    pub fn finish_job(&mut self) -> (notify_all: bool)
        ensures
            final(self)@.wf(),
            final(self)@ == old(self)@.after_finish(),
            notify_all == !final(self)@.has_work(),
    {
        self.active_count = self.active_count.wrapping_sub(1);
        self.no_work_notify_all()
    }

    /// A worker ended while it still counted as running, by a panic when
    /// `panicking` holds.
    pub(crate) fn worker_lost(&mut self, panicking: bool) -> (notify_all: bool)
        ensures
            final(self)@.wf(),
            final(self)@ == old(self)@.after_panic(panicking),
            notify_all == !final(self)@.has_work(),
    {
        self.active_count = self.active_count.wrapping_sub(1);
        if panicking {
            self.panic_count = self.panic_count.wrapping_add(1);
        }
        self.no_work_notify_all()
    }

    /// No more jobs can be submitted; workers stop once the queue is empty.
    pub fn close(&mut self)
        ensures
            final(self)@.wf(),
            final(self)@ == old(self)@.after_close(),
    {
        self.closed = true;
    }

    /// The number of workers the pool starts.
    pub fn num_threads(&self) -> (n: usize)
        ensures
            n == self@.num_threads,
    {
        self.num_threads
    }

    /// The number of jobs waiting to be taken.
    pub fn queued_count(&self) -> (n: usize)
        ensures
            n == self@.queued,
    {
        self.jobs.len()
    }

    /// The number of jobs being run.
    pub fn active_count(&self) -> (n: usize)
        ensures
            n == self@.active,
    {
        self.active_count
    }

    /// The maximum number of jobs run at once.
    pub fn max_thread_count(&self) -> (n: usize)
        ensures
            n == self@.max_threads,
    {
        self.max_thread_count
    }

    /// The number of workers that ended in a panic.
    pub fn panic_count(&self) -> (n: usize)
        ensures
            n == self@.panics,
    {
        self.panic_count
    }

    /// The name given to each worker thread.
    pub fn thread_name(&self) -> (name: &Option<String>)
        ensures
            name_view(*name) == self@.thread_name,
    {
        &self.name
    }

    /// The stack size given to each worker thread.
    pub fn stack_size(&self) -> (size: Option<usize>)
        ensures
            size == self@.stack_size,
    {
        self.stack_size
    }
}

} // verus!
