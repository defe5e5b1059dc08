use vstd::prelude::*;
use std::io::Write;
use crate::compare::{compare, compare_spec, ComparisonResult};
use crate::primes::{generate_prime, prime_ok, Method};
use crate::stats::{summarize, summarize_spec, AggregateStats, Sample, SampleSet};

verus! {

#[verifier::external_type_specification]
#[verifier::external_body]
pub struct ExInstant(std::time::Instant);

/// Relies on `std::time::Instant::now`: a reading of the monotonic
/// clock, opaque until a later reading is held against it.
#[verifier::external_body]
fn clock_now() -> std::time::Instant {
    std::time::Instant::now()
}

/// Relies on `std::time::Instant::elapsed` and
/// `std::time::Duration::as_nanos`: the wall time since `start` was
/// taken, in nanoseconds, saturated to the u64 range. The reading
/// depends on the clock, so nothing is promised of its value.
#[verifier::external_body]
fn nanos_since(start: &std::time::Instant) -> u64 {
    u64::try_from(start.elapsed().as_nanos()).unwrap_or(u64::MAX)
}

/// Relies on sysinfo: `System::new_with_specifics` refreshed for
/// process memory, `get_current_pid`, `System::process` and
/// `Process::memory` (resident set size, in bytes). `None` when the
/// platform or the process lookup gives no reading; the value depends
/// on the machine's state, so nothing is promised of it.
#[verifier::external_body]
fn process_memory_bytes() -> Option<u64> {
    let kind = sysinfo::RefreshKind::nothing().with_processes(
        sysinfo::ProcessRefreshKind::nothing().with_memory(),
    );
    let sys = sysinfo::System::new_with_specifics(kind);
    match sysinfo::get_current_pid() {
        Ok(pid) => sys.process(pid).map(|p| p.memory()),
        Err(_) => None,
    }
}

/// Relies on `writeln` to standard output: emits the one progress line
/// of an iteration, advisory only, never read back by the library.
#[verifier::external_body]
fn print_progress_line(iteration: u64, prime: u64, duration_ns: u64, memory_delta_kb: u64) {
    let _ = writeln!(
        std::io::stdout(),
        "Iteration {:>3}: Prime = {:<20} | Time = {:?} | Memory Used = {} KB",
        iteration,
        prime,
        std::time::Duration::from_nanos(duration_ns),
        memory_delta_kb,
    );
}

/// A raw memory reading scaled to kibibytes, with an unavailable
/// reading degrading to 0 rather than failing.
pub open spec fn spec_reading_kb(raw: Option<u64>) -> u64 {
    match raw {
        Some(bytes) => (bytes / 1024) as u64,
        None => 0,
    }
}

/// Scales a raw byte reading down to kibibytes; an unavailable reading
/// degrades to 0, never to an error.
pub fn reading_kb(raw: Option<u64>) -> (r: u64)
    ensures
        r == spec_reading_kb(raw),
{
    match raw {
        Some(bytes) => bytes / 1024,
        None => 0,
    }
}

/// One snapshot of the running process's resident memory, in
/// kibibytes; 0 when no reading is available.
fn memory_snapshot_kb() -> u64 {
    reading_kb(process_memory_bytes())
}

/// Memory growth between two snapshots, saturating at zero.
pub open spec fn spec_memory_delta(before: u64, after: u64) -> u64 {
    if after >= before {
        (after - before) as u64
    } else {
        0
    }
}

/// Memory growth between the snapshots taken around an invocation:
/// the after-reading minus the before-reading, or 0 when the
/// after-reading is smaller.
pub fn memory_delta(before: u64, after: u64) -> (r: u64)
    ensures
        r == spec_memory_delta(before, after),
{
    if after >= before {
        after - before
    } else {
        0
    }
}

/// Saturation law: whatever the raw before/after readings were, the
/// recorded delta is never negative.
pub proof fn lemma_memory_delta_never_negative(before: u64, after: u64)
    ensures
        spec_memory_delta(before, after) >= 0,
        before > after ==> spec_memory_delta(before, after) == 0,
{
}

/// The outcome of one measurement run: the samples and the prime each
/// iteration produced, both in invocation order.
#[derive(Debug)]
pub struct RunResult {
    pub samples: SampleSet,
    pub primes: Vec<u64>,
}

/// The measurement loop: invokes the prime source once per iteration
/// in increasing index order, timing each call and snapshotting
/// process memory before and after it, and emits one progress line per
/// iteration. Exactly `n` samples come back, none skipped or retried;
/// a missing memory reading degrades to a zero snapshot, never aborts.
pub fn run(n: usize, method: Method) -> (r: RunResult)
    requires
        n >= 1,
    ensures
        r.samples@.len() == n,
        r.primes@.len() == n,
        forall|i: int| 0 <= i < n ==> prime_ok(method, i, #[trigger] r.primes@[i]),
{
    let mut samples = SampleSet::new();
    let mut primes: Vec<u64> = Vec::new();
    let mut i: usize = 0;
    while i < n
        invariant
            i <= n,
            samples@.len() == i,
            primes@.len() == i,
            forall|j: int| 0 <= j < i ==> prime_ok(method, j, #[trigger] primes@[j]),
        decreases n - i,
    {
        let mem_before: u64 = memory_snapshot_kb();
        let start = clock_now();
        let prime: u64 = generate_prime(method, i);
        let duration_ns: u64 = nanos_since(&start);
        let mem_after: u64 = memory_snapshot_kb();
        let delta: u64 = memory_delta(mem_before, mem_after);
        samples.push(Sample { duration_ns, memory_delta_kb: delta });
        primes.push(prime);
        print_progress_line((i + 1) as u64, prime, duration_ns, delta);
        i = i + 1;
    }
    RunResult { samples, primes }
}

/// The full benchmark: both prime sources run for `n` iterations each,
/// each run summarized, and the two summaries compared.
#[derive(Debug)]
pub struct BenchmarkReport {
    pub random: RunResult,
    pub enumerated: RunResult,
    pub random_stats: AggregateStats,
    pub enumerated_stats: AggregateStats,
    pub comparison: ComparisonResult,
}

/// Runs both prime sources for `n` iterations each, in the fixed order
/// random-sampling then enumeration, and reduces the two runs to their
/// summaries and the comparison of the summaries.
pub fn run_all(n: usize, system_total_kb: u64) -> (r: BenchmarkReport)
    requires
        n >= 1,
    ensures
        r.random.samples@.len() == n,
        r.enumerated.samples@.len() == n,
        forall|i: int| 0 <= i < n ==> prime_ok(Method::RandomSampling, i, #[trigger] r.random.primes@[i]),
        forall|i: int|
            0 <= i < n ==> prime_ok(Method::NthPrime, i, #[trigger] r.enumerated.primes@[i]),
        r.random_stats == summarize_spec(r.random.samples@, system_total_kb),
        r.enumerated_stats == summarize_spec(r.enumerated.samples@, system_total_kb),
        r.comparison == compare_spec(r.random_stats, r.enumerated_stats),
{
    let random = run(n, Method::RandomSampling);
    let enumerated = run(n, Method::NthPrime);
    let random_stats = summarize(&random.samples, system_total_kb);
    let enumerated_stats = summarize(&enumerated.samples, system_total_kb);
    let comparison = compare(&random_stats, &enumerated_stats);
    BenchmarkReport { random, enumerated, random_stats, enumerated_stats, comparison }
}

} // verus!
