use prime_generator::stats::{summarize, Sample, SampleSet};

fn sample_set(pairs: &[(u64, u64)]) -> SampleSet {
    let mut s = SampleSet::new();
    for &(duration_ns, memory_delta_kb) in pairs {
        s.push(Sample { duration_ns, memory_delta_kb });
    }
    s
}

#[test]
fn summarize_totals_and_averages() {
    let s = sample_set(&[(100, 10), (250, 30)]);
    let r = summarize(&s, 1000);
    assert_eq!(r.iterations, 2);
    assert_eq!(r.total_time_ns, 350);
    assert_eq!(r.avg_time_ns, 175);
    assert_eq!(r.total_memory_kb, 40);
    assert_eq!(r.avg_memory_kb, 20);
    assert_eq!(r.memory_percent_hundredths, 400);
}

#[test]
fn summarize_single_sample() {
    let s = sample_set(&[(7, 3)]);
    let r = summarize(&s, 0);
    assert_eq!(r.iterations, 1);
    assert_eq!(r.total_time_ns, 7);
    assert_eq!(r.avg_time_ns, 7);
    assert_eq!(r.total_memory_kb, 3);
    assert_eq!(r.avg_memory_kb, 3);
}

#[test]
fn summarize_averages_truncate() {
    let s = sample_set(&[(3, 1), (4, 2)]);
    let r = summarize(&s, 100);
    assert_eq!(r.avg_time_ns, 3);
    assert_eq!(r.avg_memory_kb, 1);
}

#[test]
fn summarize_twice_is_identical() {
    let s = sample_set(&[(12, 5), (30, 0), (9, 11)]);
    let first = summarize(&s, 4096);
    let second = summarize(&s, 4096);
    assert_eq!(first, second);
}

#[test]
fn summarize_with_zero_system_total_does_not_crash() {
    let s = sample_set(&[(5, 100), (6, 200)]);
    let r = summarize(&s, 0);
    assert_eq!(r.memory_percent_hundredths, 0);
    assert_eq!(r.total_memory_kb, 300);
}

#[test]
fn summarize_percentage_in_hundredths() {
    let s = sample_set(&[(1, 1)]);
    let r = summarize(&s, 300);
    assert_eq!(r.memory_percent_hundredths, 33);
}

#[test]
fn summarize_percentage_rounds_to_nearest() {
    let s = sample_set(&[(1, 2)]);
    let r = summarize(&s, 300);
    assert_eq!(r.memory_percent_hundredths, 67);
}

#[test]
fn summarize_saturates_instead_of_overflowing() {
    let s = sample_set(&[(u64::MAX, u64::MAX), (10, 10)]);
    let r = summarize(&s, 0);
    assert_eq!(r.total_time_ns, u64::MAX);
    assert_eq!(r.total_memory_kb, u64::MAX);
}
