//! A fixed-size thread pool, described as a verified state machine.
//!
//! The library holds everything the pool decides: how many workers it
//! starts, the queue of submitted jobs, the counters of queued, running and
//! panicked jobs, when a worker keeps going or stops, when `join` may
//! return and when waiters are woken. The threads, locks and condition
//! variables that carry these decisions out live in the program around it.

mod cpus;

pub mod builder;
pub mod laws;
pub mod pool;
pub mod sentinel;
pub mod workers;

pub use builder::PoolBuilder;
pub use pool::ThreadPool;
pub use sentinel::Sentinel;
