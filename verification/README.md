# thread_pool

A fixed-size thread pool whose decisions are verified with Verus.

- `src/` is the verified library: `builder` (worker count, thread name and
  stack size), `pool` (the job queue, the queued/running/panic counters, and
  what workers and `join` decide on them), `sentinel` (what a worker that
  ends in a panic gives back), `laws` (properties proved across operations),
  `workers` (the pool together with its workers: running-job accounting and
  the bound on running jobs, proved over every run of events),
  and `cpus` (the one trusted call, to `num_cpus::get`).
- `app/` runs the pool: it holds the library's state behind a mutex, starts
  the worker threads, waits on condition variables, and runs the jobs.
  Run it with the argument `drop-order` for a small drop-order demonstration.
- `tests/` drives the state machine on concrete values.

Each pool runs at most as many jobs at once as it has workers, and `join`
returns only when no job is queued and no worker runs one
(`workers::law_reachable_states`). From every reachable state, with no
further submissions, the workers can take every queued job once and in
order, after which `join` returns (`workers::law_reachable_pool_drains`).
