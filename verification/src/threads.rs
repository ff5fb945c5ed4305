//! How many worker threads a service runs.

use vstd::prelude::*;

verus! {

/// The fewest threads a service runs with.
pub const MIN_THREADS: usize = 2;

/// `num_cpus::get`: the number of logical cores available to the process.
/// The crate documents that it is at least one; the rest is up to the machine.
pub assume_specification[ num_cpus::get ]() -> (cpus: usize)
    ensures
        cpus >= 1,
;

/// Threads for a machine with `cpus` cores: one per core, and never fewer
/// than two.
pub open spec fn threads_for(cpus: usize) -> usize {
    if cpus < MIN_THREADS {
        MIN_THREADS
    } else {
        cpus
    }
}

/// Threads for a machine with `cpus` cores. Under test the core count is
/// taken to be two, whatever the machine has.
pub fn threads_for_cpus(test_mode: bool, cpus: usize) -> (threads: usize)
    ensures
        threads == if test_mode {
            MIN_THREADS
        } else {
            threads_for(cpus)
        },
{
    let num_cpus = if test_mode {
        2
    } else {
        cpus
    };
    if num_cpus < 2 {
        2
    } else {
        num_cpus
    }
}

/// Threads for this machine. `test_mode` says whether the `TEST` variable is
/// set in the environment; the cores are counted only where it is not. The
/// answer is that of [`threads_for_cpus`] for the count that came back.
pub fn num_threads(test_mode: bool) -> (threads: usize)
    ensures
        threads >= MIN_THREADS,
        test_mode ==> threads == MIN_THREADS,
        exists|cpus: usize| cpus >= 1 && threads == #[trigger] threads_for(cpus),
{
    if test_mode {
        assert(threads_for(1) == MIN_THREADS);
        threads_for_cpus(true, 0)
    } else {
        let cpus = num_cpus::get();
        let threads = threads_for_cpus(false, cpus);
        assert(threads == threads_for(cpus));
        threads
    }
}

} // verus!
