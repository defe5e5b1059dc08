use vstd::prelude::*;
use crate::stats::AggregateStats;

verus! {

/// The magnitude of the difference between two readings: `|a - b|`.
pub open spec fn spec_abs_diff(a: u64, b: u64) -> u64 {
    if a >= b {
        (a - b) as u64
    } else {
        (b - a) as u64
    }
}

/// Magnitude of the difference between two readings, never negative.
pub fn abs_diff(a: u64, b: u64) -> (r: u64)
    ensures
        r == spec_abs_diff(a, b),
{
    if a >= b {
        a - b
    } else {
        b - a
    }
}

/// Differences between two summaries. Every field is a magnitude: the
/// direction of "first minus second" is deliberately not kept, one
/// convention for time and memory alike.
#[derive(Clone, Copy, PartialEq, Eq, Structural, Debug)]
pub struct ComparisonResult {
    pub time_total_diff_ns: u64,
    pub time_avg_diff_ns: u64,
    pub memory_total_diff_kb: u64,
    pub memory_avg_diff_kb: u64,
}

/// What comparing two summaries yields: the four absolute differences.
pub open spec fn compare_spec(a: AggregateStats, b: AggregateStats) -> ComparisonResult {
    ComparisonResult {
        time_total_diff_ns: spec_abs_diff(a.total_time_ns, b.total_time_ns),
        time_avg_diff_ns: spec_abs_diff(a.avg_time_ns, b.avg_time_ns),
        memory_total_diff_kb: spec_abs_diff(a.total_memory_kb, b.total_memory_kb),
        memory_avg_diff_kb: spec_abs_diff(a.avg_memory_kb, b.avg_memory_kb),
    }
}

/// Reduces two summaries to their differences. Pure and single-shot.
pub fn compare(a: &AggregateStats, b: &AggregateStats) -> (r: ComparisonResult)
    ensures
        r == compare_spec(*a, *b),
{
    ComparisonResult {
        time_total_diff_ns: abs_diff(a.total_time_ns, b.total_time_ns),
        time_avg_diff_ns: abs_diff(a.avg_time_ns, b.avg_time_ns),
        memory_total_diff_kb: abs_diff(a.total_memory_kb, b.total_memory_kb),
        memory_avg_diff_kb: abs_diff(a.avg_memory_kb, b.avg_memory_kb),
    }
}

/// Comparison is symmetric: every difference field is a magnitude, so
/// swapping the two summaries changes nothing.
pub proof fn lemma_compare_symmetric(a: AggregateStats, b: AggregateStats)
    ensures
        compare_spec(a, b) == compare_spec(b, a),
{
}

} // verus!
