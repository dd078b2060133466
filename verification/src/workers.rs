use vstd::prelude::*;

verus! {

/// Relies on `num_cpus::get_physical` to count the machine's physical
/// cores; nothing is assumed of the value it returns.
#[verifier::external_body]
fn physical_cores() -> usize {
    num_cpus::get_physical()
}

/// One worker per reported core, with a degenerate count of zero mapped
/// to a single worker.
fn clamped_workers(cores: usize) -> (n: usize)
    ensures
        n == (if cores == 0 {
            1usize
        } else {
            cores
        }),
        n >= 1,
{
    if cores == 0 {
        1
    } else {
        cores
    }
}

/// The number of workers the download pool is built with: one per
/// physical core, and at least one.
pub fn worker_pool_size() -> (n: usize)
    ensures
        n >= 1,
{
    let cores = physical_cores();
    clamped_workers(cores)
}

} // verus!
