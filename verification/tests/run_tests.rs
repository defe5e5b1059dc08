use prime_generator::compare::compare;
use prime_generator::measure::{memory_delta, reading_kb, run, run_all};
use prime_generator::primes::{generate_prime, nth_prime, random_prime, Method};
use prime_generator::select::{choice_or_default, iterations_or_default, select, Selection};
use prime_generator::stats::summarize;

fn is_prime_by_trial_division(n: u64) -> bool {
    if n < 2 {
        return false;
    }
    let mut d: u64 = 2;
    while d * d <= n {
        if n % d == 0 {
            return false;
        }
        d += 1;
    }
    true
}

#[test]
fn run_returns_one_sample_per_iteration() {
    let r = run(4, Method::NthPrime);
    assert_eq!(r.samples.len(), 4);
    assert_eq!(r.primes.len(), 4);
}

#[test]
fn five_random_iterations_report_five_primes_in_range() {
    let r = run(5, Method::RandomSampling);
    assert_eq!(r.samples.len(), 5);
    assert_eq!(r.primes.len(), 5);
    for &p in r.primes.iter() {
        assert!(p >= 2);
        assert!(p <= 1_000_000);
        assert!(is_prime_by_trial_division(p));
    }
    let summary = summarize(&r.samples, 0);
    assert_eq!(summary.iterations, 5);
}

#[test]
fn three_enumerated_iterations_report_first_three_primes() {
    let r = run(3, Method::NthPrime);
    assert_eq!(r.primes, vec![2, 3, 5]);
}

#[test]
fn nth_prime_counts_two_as_first() {
    assert_eq!(nth_prime(1), 2);
    assert_eq!(nth_prime(2), 3);
    assert_eq!(nth_prime(3), 5);
    assert_eq!(nth_prime(4), 7);
    assert_eq!(nth_prime(25), 97);
}

#[test]
fn generate_prime_maps_index_to_ordinal() {
    assert_eq!(generate_prime(Method::NthPrime, 0), 2);
    assert_eq!(generate_prime(Method::NthPrime, 1), 3);
    assert_eq!(generate_prime(Method::NthPrime, 2), 5);
}

#[test]
fn random_prime_is_prime_and_in_range() {
    for _ in 0..20 {
        let p = random_prime();
        assert!(p >= 2);
        assert!(p <= 1_000_000);
        assert!(is_prime_by_trial_division(p));
    }
}

#[test]
fn run_all_produces_two_runs_two_summaries_one_comparison() {
    let report = run_all(2, 1_000_000);
    assert_eq!(report.random.samples.len(), 2);
    assert_eq!(report.enumerated.samples.len(), 2);
    assert_eq!(report.random_stats.iterations, 2);
    assert_eq!(report.enumerated_stats.iterations, 2);
    let recomputed = compare(&report.random_stats, &report.enumerated_stats);
    assert_eq!(report.comparison, recomputed);
}

#[test]
fn memory_delta_saturates_at_zero() {
    assert_eq!(memory_delta(5, 12), 7);
    assert_eq!(memory_delta(12, 5), 0);
    assert_eq!(memory_delta(9, 9), 0);
}

#[test]
fn reading_scales_bytes_down_and_defaults_to_zero() {
    assert_eq!(reading_kb(Some(2048)), 2);
    assert_eq!(reading_kb(Some(1023)), 0);
    assert_eq!(reading_kb(None), 0);
}

#[test]
fn unparsable_choice_defaults_to_run_all() {
    assert_eq!(choice_or_default(None), 0);
    assert_eq!(select(0), Selection::All);
    assert_eq!(select(choice_or_default(None)), Selection::All);
}

#[test]
fn unrecognized_choice_runs_all() {
    assert_eq!(select(7), Selection::All);
    assert_eq!(select(1), Selection::Single(Method::RandomSampling));
    assert_eq!(select(2), Selection::Single(Method::NthPrime));
}

#[test]
fn iteration_count_defaults_to_one() {
    assert_eq!(iterations_or_default(None), 1);
    assert_eq!(iterations_or_default(Some(0)), 1);
    assert_eq!(iterations_or_default(Some(9)), 9);
}
