//! Benchmarks two ways of producing prime numbers — drawing random
//! candidates in a fixed range until one passes a primality test, and
//! enumerating the primes in increasing order — and reduces the measured
//! runs to summary and comparison statistics.
//!
//! The measurement loop ([`measure::run`]), the statistics aggregator
//! ([`stats::summarize`]) and the comparison reporter
//! ([`compare::compare`]) are verified: each run yields exactly one
//! sample per iteration, memory deltas saturate at zero, summaries are a
//! pure function of the samples, averages are the truncating quotients
//! of the totals, and all comparison fields are magnitudes, so comparing
//! is symmetric. The prime sources, the clock and the process-memory
//! readings come from outside capabilities that the `measure` and
//! `primes` modules wrap with explicit contracts.

pub mod compare;
pub mod measure;
pub mod primes;
pub mod select;
pub mod stats;
