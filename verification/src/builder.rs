use vstd::prelude::*;

use crate::cpus::available_cpus;
use crate::pool::ThreadPool;

verus! {

/// Configuration of a pool before it starts: the number of workers, and the
/// name and stack size given to each worker thread.
pub struct PoolBuilder {
    num_threads: Option<usize>,
    thread_name: Option<String>,
    thread_stack_size: Option<usize>,
}

/// What a builder holds, as plain values.
pub struct PoolBuilderView {
    pub num_threads: Option<usize>,
    pub thread_name: Option<Seq<char>>,
    pub thread_stack_size: Option<usize>,
}

pub open spec fn name_view(name: Option<String>) -> Option<Seq<char>> {
    match name {
        Some(s) => Some(s@),
        None => None,
    }
}

impl View for PoolBuilder {
    type V = PoolBuilderView;

    closed spec fn view(&self) -> PoolBuilderView {
        PoolBuilderView {
            num_threads: self.num_threads,
            thread_name: name_view(self.thread_name),
            thread_stack_size: self.thread_stack_size,
        }
    }
}

impl PoolBuilder {
    /// A worker count, once set, is positive.
    #[verifier::type_invariant]
    spec fn count_is_positive(self) -> bool {
        self.num_threads matches Some(n) ==> n > 0
    }

    /// A builder with nothing set: the pool will start one worker per CPU,
    /// with the thread name and stack size that std chooses.
    pub fn new() -> (b: Self)
        ensures
            b@.num_threads is None,
            b@.thread_name is None,
            b@.thread_stack_size is None,
    {
        PoolBuilder { num_threads: None, thread_name: None, thread_stack_size: None }
    }

    /// Sets the number of workers; zero workers is refused.
    pub fn num_threads(self, num_threads: usize) -> (b: Self)
        requires
            num_threads > 0,
        ensures
            b@.num_threads == Some(num_threads),
            b@.thread_name == self@.thread_name,
            b@.thread_stack_size == self@.thread_stack_size,
    {
        let mut b = self;
        b.num_threads = Some(num_threads);
        b
    }

    /// The number of workers the pool starts: the one that was set, or else
    /// the number of CPUs of the machine (at least one).
    pub fn worker_count(&self) -> (n: usize)
        ensures
            n >= 1,
            self@.num_threads is Some ==> n == self@.num_threads->0,
    {
        proof {
            use_type_invariant(self);
        }
        match self.num_threads {
            Some(n) => n,
            None => available_cpus(),
        }
    }

    /// Starts the pool's bookkeeping with `workers` workers: no job queued
    /// or running, no panic seen, the queue open, and at most `workers` jobs
    /// running at once.
    pub fn build_with_workers<J>(self, workers: usize) -> (pool: ThreadPool<J>)
        requires
            workers > 0,
        ensures
            pool@.wf(),
            pool@ == ThreadPool::<J>::initial(workers, self@.thread_name, self@.thread_stack_size),
    {
        ThreadPool::start(workers, self.thread_name, self.thread_stack_size)
    }

    /// Starts the pool's bookkeeping: as many workers as were set, or one
    /// per CPU when none were.
    pub fn build<J>(self) -> (pool: ThreadPool<J>)
        ensures
            pool@.wf(),
            pool@.num_threads >= 1,
            self@.num_threads is Some ==> pool@.num_threads == self@.num_threads->0,
            pool@ == ThreadPool::<J>::initial(
                pool@.num_threads,
                self@.thread_name,
                self@.thread_stack_size,
            ),
    {
        proof {
            use_type_invariant(&self);
        }
        let workers = self.worker_count();
        self.build_with_workers(workers)
    }
}

} // verus!
