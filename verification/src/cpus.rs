use vstd::prelude::*;

verus! {

/// Calls `num_cpus::get`, the number of logical CPUs available to this
/// process. Its documentation promises that the result is always at least
/// one; nothing else is claimed, since the count depends on the machine,
/// its affinity mask and its cgroup limits.
#[verifier::external_body]
pub(crate) fn available_cpus() -> (n: usize)
    ensures
        n >= 1,
{
    num_cpus::get()
}

} // verus!
