use vstd::prelude::*;

verus! {

/// One measured invocation of a prime source: elapsed wall time in
/// nanoseconds and process memory growth in kibibytes.
#[derive(Clone, Copy, PartialEq, Eq, Structural, Debug)]
pub struct Sample {
    pub duration_ns: u64,
    pub memory_delta_kb: u64,
}

/// The samples collected for one method, in invocation order.
#[derive(Debug)]
pub struct SampleSet {
    pub samples: Vec<Sample>,
}

impl View for SampleSet {
    type V = Seq<Sample>;

    open spec fn view(&self) -> Seq<Sample> {
        self.samples@
    }
}

impl SampleSet {
    /// An empty collection, ready to record a run.
    pub fn new() -> (s: SampleSet)
        ensures
            s@ =~= Seq::<Sample>::empty(),
    {
        SampleSet { samples: Vec::new() }
    }

    /// Appends one sample at the end, keeping invocation order.
    pub fn push(&mut self, sample: Sample)
        ensures
            final(self)@ =~= old(self)@.push(sample),
    {
        self.samples.push(sample);
    }

    /// How many samples were recorded.
    pub fn len(&self) -> (n: usize)
        ensures
            n == self@.len(),
    {
        self.samples.len()
    }
}

/// Addition that sticks at the largest representable value instead of
/// wrapping.
pub open spec fn sat_add(a: u64, b: u64) -> u64 {
    if a + b > u64::MAX {
        u64::MAX
    } else {
        (a + b) as u64
    }
}

/// Sum of all durations in a sample sequence, saturating.
pub open spec fn total_time_of(s: Seq<Sample>) -> u64
    decreases s.len(),
{
    if s.len() == 0 {
        0
    } else {
        sat_add(total_time_of(s.drop_last()), s.last().duration_ns)
    }
}

/// Sum of all memory deltas in a sample sequence, saturating.
pub open spec fn total_memory_of(s: Seq<Sample>) -> u64
    decreases s.len(),
{
    if s.len() == 0 {
        0
    } else {
        sat_add(total_memory_of(s.drop_last()), s.last().memory_delta_kb)
    }
}

/// Share of the system's total memory taken by `total_memory_kb`, in
/// hundredths of a percent, rounded to the nearest hundredth and
/// clamped to the representable range; 0 when the system total is
/// unknown (reported as 0), so the division is never attempted.
pub open spec fn percent_hundredths_of(total_memory_kb: u64, system_total_kb: u64) -> u64 {
    if system_total_kb == 0 {
        0
    } else {
        let p = (total_memory_kb * 10000 + (system_total_kb as int) / 2) / (system_total_kb as int);
        if p > u64::MAX {
            u64::MAX
        } else {
            p as u64
        }
    }
}

/// Derived summary of a sample set: totals, truncating averages, and
/// the share of system memory used.
#[derive(Clone, Copy, PartialEq, Eq, Structural, Debug)]
pub struct AggregateStats {
    pub iterations: u64,
    pub total_time_ns: u64,
    pub avg_time_ns: u64,
    pub total_memory_kb: u64,
    pub avg_memory_kb: u64,
    pub memory_percent_hundredths: u64,
}

/// What summarizing a sample sequence yields. The averages divide the
/// saturating totals by the sample count, truncating.
pub open spec fn summarize_spec(s: Seq<Sample>, system_total_kb: u64) -> AggregateStats {
    AggregateStats {
        iterations: s.len() as u64,
        total_time_ns: total_time_of(s),
        avg_time_ns: (total_time_of(s) as int / (s.len() as u64) as int) as u64,
        total_memory_kb: total_memory_of(s),
        avg_memory_kb: (total_memory_of(s) as int / (s.len() as u64) as int) as u64,
        memory_percent_hundredths: percent_hundredths_of(total_memory_of(s), system_total_kb),
    }
}

/// Summarizing is idempotent: the summary is a pure function of the
/// sample sequence and the system total, so two summaries of the same
/// inputs are identical in every field.
pub proof fn lemma_summarize_idempotent(
    s: Seq<Sample>,
    system_total_kb: u64,
    r1: AggregateStats,
    r2: AggregateStats,
)
    requires
        r1 == summarize_spec(s, system_total_kb),
        r2 == summarize_spec(s, system_total_kb),
    ensures
        r1 == r2,
{
}

/// Each average is the corresponding total divided by the sample
/// count, truncating towards zero.
pub proof fn lemma_averages_divide_totals(s: Seq<Sample>, system_total_kb: u64)
    requires
        1 <= s.len() <= u64::MAX,
    ensures
        summarize_spec(s, system_total_kb).iterations == s.len(),
        summarize_spec(s, system_total_kb).avg_time_ns == summarize_spec(s, system_total_kb).total_time_ns as int
            / s.len() as int,
        summarize_spec(s, system_total_kb).avg_memory_kb == summarize_spec(s, system_total_kb).total_memory_kb as int
            / s.len() as int,
{
}

/// Reduces a sample set to its summary statistics. Pure: the result is
/// fixed by the samples and the system total alone.
pub fn summarize(samples: &SampleSet, system_total_kb: u64) -> (r: AggregateStats)
    requires
        samples@.len() >= 1,
    ensures
        r == summarize_spec(samples@, system_total_kb),
{
    let n: usize = samples.samples.len();
    let mut total_time: u64 = 0;
    let mut total_memory: u64 = 0;
    let mut i: usize = 0;
    while i < n
        invariant
            i <= n,
            n == samples@.len(),
            total_time == total_time_of(samples@.take(i as int)),
            total_memory == total_memory_of(samples@.take(i as int)),
        decreases n - i,
    {
        let d: u64 = samples.samples[i].duration_ns;
        let m: u64 = samples.samples[i].memory_delta_kb;
        proof {
            assert(samples@.take(i + 1).drop_last() =~= samples@.take(i as int));
            assert(samples@.take(i + 1).last() == samples@[i as int]);
        }
        total_time = if total_time <= u64::MAX - d {
            total_time + d
        } else {
            u64::MAX
        };
        total_memory = if total_memory <= u64::MAX - m {
            total_memory + m
        } else {
            u64::MAX
        };
        i = i + 1;
    }
    proof {
        assert(samples@.take(n as int) =~= samples@);
    }
    let count: u64 = n as u64;
    let wide: u128 = (total_memory as u128) * 10000 + (system_total_kb as u128) / 2;
    let scaled: u128 = if system_total_kb == 0 {
        0
    } else {
        wide / (system_total_kb as u128)
    };
    let percent: u64 = if system_total_kb == 0 {
        0
    } else if scaled > u64::MAX as u128 {
        u64::MAX
    } else {
        scaled as u64
    };
    AggregateStats {
        iterations: count,
        total_time_ns: total_time,
        avg_time_ns: total_time / count,
        total_memory_kb: total_memory,
        avg_memory_kb: total_memory / count,
        memory_percent_hundredths: percent,
    }
}

} // verus!
