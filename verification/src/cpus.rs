//! The number of processors, as the machine reports it.

use vstd::prelude::*;

verus! {

/// Calls `num_cpus::get`, which asks the operating system how many logical
/// processors the current process may use. The answer depends on the machine
/// and on the moment, so nothing is claimed of it.
#[verifier::external_body]
fn logical_cpus() -> usize {
    num_cpus::get()
}

/// The conversion slots a client has unless it is told otherwise: one for
/// each logical processor the machine reports, and one where it reports
/// none, so that a conversion can always start.
pub fn default_threads_cpu() -> (slots: usize)
    ensures
        slots >= 1,
{
    let cpus = logical_cpus();
    if cpus < 1 {
        1
    } else {
        cpus
    }
}

} // verus!
