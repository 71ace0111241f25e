//! Timestamp-query arithmetic.
//!
//! The command sequence writes a start timestamp at the top of the pipe and
//! an end timestamp at the bottom, so a retrieved pair is in order whenever
//! both are available; the elapsed-tick computation must never underflow.

use vstd::prelude::*;

verus! {

/// Elapsed device ticks between an ordered pair of retrieved timestamps.
pub fn elapsed_ticks(start: u64, end: u64) -> (r: u64)
    requires
        start <= end,
    ensures
        r == end - start,
{
    end - start
}

/// Total form of the elapsed-tick computation: `Some` exactly when the pair
/// is in order, so an out-of-order pair can never underflow.
pub fn try_elapsed_ticks(start: u64, end: u64) -> (r: Option<u64>)
    ensures
        start <= end ==> r == Some((end - start) as u64),
        start > end ==> r is None,
{
    if start <= end {
        Some(end - start)
    } else {
        None
    }
}

/// Law: for any ordered timestamp pair the elapsed-tick computation cannot
/// underflow — the difference is nonnegative, and adding it back to the
/// start timestamp recovers the end timestamp exactly.
pub proof fn lemma_elapsed_no_underflow(start: u64, end: u64)
    requires
        start <= end,
    ensures
        end - start >= 0,
        start + (end - start) == end,
{
}

} // verus!
