use vstd::prelude::*;

use crate::pool::{ExitAction, ThreadPool};

verus! {

/// Held by each worker for its whole life. A worker that leaves its loop
/// normally cancels it; one that ends any other way (a panicking job) still
/// holds an active sentinel, which gives back the job's place in the
/// running count and asks for a replacement worker.
pub struct Sentinel {
    active: bool,
}

impl Sentinel {
    pub closed spec fn is_active(self) -> bool {
        self.active
    }

    /// The sentinel of a worker that has just started.
    pub fn new() -> (s: Self)
        ensures
            s.is_active(),
    {
        Sentinel { active: true }
    }

    /// The worker left its loop normally: nothing is left to undo.
    pub fn cancel(&mut self)
        ensures
            !final(self).is_active(),
    {
        self.active = false;
    }

    /// What the sentinel does when its worker ends, `panicking` telling
    /// whether it ends in a panic. An active sentinel counts one running job
    /// fewer, counts the panic, wakes the threads in `join` when no work is
    /// left, and asks for a new worker; a cancelled one does nothing.
    pub fn release<J>(&self, pool: &mut ThreadPool<J>, panicking: bool) -> (act: ExitAction)
        ensures
            final(pool)@.wf(),
            self.is_active() ==> final(pool)@ == old(pool)@.after_panic(panicking),
            self.is_active() ==> act == (ExitAction {
                notify_all: !final(pool)@.has_work(),
                respawn: true,
            }),
            !self.is_active() ==> final(pool)@ == old(pool)@,
            !self.is_active() ==> act == (ExitAction { notify_all: false, respawn: false }),
    {
        if self.active {
            let notify_all = pool.worker_lost(panicking);
            ExitAction { notify_all, respawn: true }
        } else {
            proof {
                pool.lemma_well_formed();
            }
            ExitAction { notify_all: false, respawn: false }
        }
    }
}

} // verus!
