use thread_pool::builder::PoolBuilder;
use thread_pool::pool::{ExitAction, JoinStep, Received, ThreadPool};
use thread_pool::sentinel::Sentinel;

fn take(pool: &mut ThreadPool<u32>) -> Option<u32> {
    match pool.receive() {
        Received::Job(j) => Some(j),
        _ => None,
    }
}

#[test]
fn builder_sets_worker_count() {
    let pool: ThreadPool<u32> = PoolBuilder::new().num_threads(4).build();
    assert_eq!(pool.num_threads(), 4);
    assert_eq!(pool.max_thread_count(), 4);
    assert_eq!(pool.queued_count(), 0);
    assert_eq!(pool.active_count(), 0);
    assert_eq!(pool.panic_count(), 0);
    assert!(pool.thread_name().is_none());
    assert_eq!(pool.stack_size(), None);
}

#[test]
fn builder_defaults_to_cpu_count() {
    let builder = PoolBuilder::new();
    assert_eq!(builder.worker_count(), num_cpus::get());
    let pool: ThreadPool<u32> = builder.build();
    assert_eq!(pool.num_threads(), num_cpus::get());
    assert!(pool.num_threads() >= 1);
}

#[test]
fn build_with_workers_uses_given_count() {
    let pool: ThreadPool<u32> = PoolBuilder::new().build_with_workers(3);
    assert_eq!(pool.num_threads(), 3);
    assert_eq!(pool.max_thread_count(), 3);
}

#[test]
fn new_pool_has_no_work() {
    let pool: ThreadPool<u32> = ThreadPool::new(8);
    assert_eq!(pool.num_threads(), 8);
    assert!(!pool.has_work());
    assert!(pool.no_work_notify_all());
    assert_eq!(pool.join(), JoinStep::Return);
}

#[test]
fn execute_counts_queued_jobs() {
    let mut pool: ThreadPool<u32> = ThreadPool::new(2);
    pool.execute(7);
    pool.execute(8);
    assert_eq!(pool.queued_count(), 2);
    assert!(pool.has_work());
    assert!(!pool.no_work_notify_all());
    assert_eq!(pool.join(), JoinStep::Wait);
}

#[test]
fn jobs_are_taken_in_submission_order() {
    let mut pool: ThreadPool<u32> = ThreadPool::new(2);
    for i in 0..5 {
        pool.execute(i);
    }
    for i in 0..5 {
        assert_eq!(take(&mut pool), Some(i));
    }
    assert_eq!(pool.queued_count(), 0);
    assert_eq!(pool.active_count(), 5);
}

#[test]
fn receive_moves_job_from_queue_to_running() {
    let mut pool: ThreadPool<u32> = ThreadPool::new(2);
    pool.execute(1);
    assert_eq!(take(&mut pool), Some(1));
    assert_eq!(pool.queued_count(), 0);
    assert_eq!(pool.active_count(), 1);
    assert!(pool.has_work());
    assert_eq!(pool.join(), JoinStep::Wait);
    assert!(pool.finish_job());
    assert_eq!(pool.active_count(), 0);
    assert_eq!(pool.join(), JoinStep::Return);
}

#[test]
fn finishing_with_work_left_does_not_notify() {
    let mut pool: ThreadPool<u32> = ThreadPool::new(2);
    pool.execute(1);
    pool.execute(2);
    assert_eq!(take(&mut pool), Some(1));
    assert!(!pool.finish_job());
    assert_eq!(pool.queued_count(), 1);
}

#[test]
fn empty_open_queue_makes_worker_wait() {
    let mut pool: ThreadPool<u32> = ThreadPool::new(1);
    assert!(matches!(pool.receive(), Received::Empty));
    assert_eq!(pool.active_count(), 0);
}

#[test]
fn closed_queue_still_delivers_then_disconnects() {
    let mut pool: ThreadPool<u32> = ThreadPool::new(1);
    pool.execute(9);
    pool.close();
    assert_eq!(take(&mut pool), Some(9));
    assert!(matches!(pool.receive(), Received::Disconnected));
}

#[test]
fn worker_stops_at_maximum_running_jobs() {
    let mut pool: ThreadPool<u32> = ThreadPool::new(2);
    assert!(pool.worker_may_continue());
    pool.execute(1);
    pool.execute(2);
    let _ = take(&mut pool);
    assert!(pool.worker_may_continue());
    let _ = take(&mut pool);
    assert!(!pool.worker_may_continue());
    pool.finish_job();
    assert!(pool.worker_may_continue());
}

#[test]
fn counters_wrap_like_atomics() {
    let mut pool: ThreadPool<u32> = ThreadPool::new(1);
    assert!(!pool.finish_job());
    assert_eq!(pool.active_count(), usize::MAX);
}

#[test]
fn active_sentinel_counts_panic_and_respawns() {
    let mut pool: ThreadPool<u32> = ThreadPool::new(2);
    pool.execute(1);
    let _ = take(&mut pool);
    let sentinel = Sentinel::new();
    let act = sentinel.release(&mut pool, true);
    assert_eq!(act, ExitAction { notify_all: true, respawn: true });
    assert_eq!(pool.active_count(), 0);
    assert_eq!(pool.panic_count(), 1);
}

#[test]
fn active_sentinel_without_panic_does_not_count_one() {
    let mut pool: ThreadPool<u32> = ThreadPool::new(2);
    pool.execute(1);
    pool.execute(2);
    let _ = take(&mut pool);
    let sentinel = Sentinel::new();
    let act = sentinel.release(&mut pool, false);
    assert_eq!(act, ExitAction { notify_all: false, respawn: true });
    assert_eq!(pool.active_count(), 0);
    assert_eq!(pool.panic_count(), 0);
}

#[test]
fn cancelled_sentinel_does_nothing() {
    let mut pool: ThreadPool<u32> = ThreadPool::new(2);
    pool.execute(1);
    let _ = take(&mut pool);
    let mut sentinel = Sentinel::new();
    sentinel.cancel();
    let act = sentinel.release(&mut pool, true);
    assert_eq!(act, ExitAction { notify_all: false, respawn: false });
    assert_eq!(pool.active_count(), 1);
    assert_eq!(pool.panic_count(), 0);
}

#[test]
fn forty_two_jobs_all_run_then_join_returns() {
    let mut pool: ThreadPool<u32> = ThreadPool::new(8);
    for i in 0..42 {
        pool.execute(i);
    }
    assert_eq!(pool.queued_count(), 42);
    let mut ran = Vec::new();
    while let Some(j) = take(&mut pool) {
        ran.push(j);
        pool.finish_job();
    }
    assert_eq!(ran, (0..42).collect::<Vec<u32>>());
    assert_eq!(pool.join(), JoinStep::Return);
}

#[test]
fn running_jobs_never_exceed_workers() {
    let mut pool: ThreadPool<u32> = ThreadPool::new(2);
    for i in 0..5 {
        pool.execute(i);
    }
    let mut taken = 0;
    while pool.worker_may_continue() {
        assert!(take(&mut pool).is_some());
        taken += 1;
    }
    assert_eq!(taken, 2);
    assert_eq!(pool.active_count(), 2);
    assert_eq!(pool.queued_count(), 3);
    pool.finish_job();
    pool.finish_job();
    assert_eq!(pool.join(), JoinStep::Wait);
    while let Some(_) = take(&mut pool) {
        assert!(pool.active_count() <= 2);
        pool.finish_job();
    }
    assert_eq!(pool.active_count(), 0);
    assert_eq!(pool.join(), JoinStep::Return);
}

#[test]
fn busy_pool_drains_in_order_then_joins() {
    let mut pool: ThreadPool<u32> = ThreadPool::new(3);
    for i in 0..6 {
        pool.execute(i);
    }
    assert_eq!(take(&mut pool), Some(0));
    assert_eq!(take(&mut pool), Some(1));
    pool.close();
    pool.finish_job();
    pool.finish_job();
    let mut rest = Vec::new();
    while let Some(j) = take(&mut pool) {
        rest.push(j);
        pool.finish_job();
    }
    assert_eq!(rest, vec![2, 3, 4, 5]);
    assert!(matches!(pool.receive(), Received::Disconnected));
    assert_eq!(pool.join(), JoinStep::Return);
}
