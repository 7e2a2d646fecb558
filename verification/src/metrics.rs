//! The run's derived numbers: total configured events and throughput.
//! Elapsed time reaches this module as integer nanoseconds — what a
//! monotonic clock yields — and throughput comes back in milli-events per
//! second, so the arithmetic stays exact; the caller renders it as it likes.

use vstd::prelude::*;

verus! {

/// The total number of configured events of a run: worker count times
/// events per worker.
pub fn total_events(workers: usize, events_per_worker: usize) -> (t: usize)
    requires
        workers * events_per_worker <= usize::MAX,
    ensures
        t == workers * events_per_worker,
{
    workers * events_per_worker
}

/// Throughput in milli-events per second: 1000 × total / elapsed-seconds,
/// rounded toward zero, computed exactly over the elapsed nanoseconds.
/// A result of 500_000 reads as 500.000 events per second.
pub fn throughput_milli_per_sec(total: u64, elapsed_nanos: u64) -> (t: u128)
    requires
        elapsed_nanos > 0,
    ensures
        t == (total * 1_000_000_000_000) as int / (elapsed_nanos as int),
{
    (total as u128) * 1_000_000_000_000u128 / (elapsed_nanos as u128)
}

/// The reporting label of an event-type code.
pub fn etype_label(etype: i64) -> (s: &'static str)
    ensures
        etype == 0 ==> s@ == "int"@,
        etype == 1 ==> s@ == "str"@,
        etype == 2 ==> s@ == "str_ptr"@,
        etype == 3 ==> s@ == "str_clone"@,
        !(0 <= etype <= 3) ==> s@ == "unknown"@,
{
    if etype == 0 {
        "int"
    } else if etype == 1 {
        "str"
    } else if etype == 2 {
        "str_ptr"
    } else if etype == 3 {
        "str_clone"
    } else {
        "unknown"
    }
}

} // verus!
