use vstd::prelude::*;
use rand::Rng;

verus! {

/// Whether `n` is a prime number: at least 2 and with no divisor
/// strictly between 1 and itself.
pub open spec fn spec_is_prime(n: int) -> bool {
    n >= 2 && forall|d: int| 2 <= d < n ==> #[trigger] (n % d) != 0
}

/// How many primes lie strictly below `n`.
pub open spec fn primes_below(n: int) -> nat
    decreases n,
{
    if n <= 2 {
        0
    } else {
        primes_below(n - 1) + if spec_is_prime(n - 1) {
            1nat
        } else {
            0nat
        }
    }
}

/// `p` is the prime of zero-based rank `k`: `p` is prime and exactly
/// `k` primes lie below it.
pub open spec fn is_nth_prime(k: int, p: int) -> bool {
    spec_is_prime(p) && primes_below(p) == k
}

/// What the enumerating source returns for zero-based rank `k`: the
/// prime of that rank, with the fallback 2 only when no representable
/// value has that rank.
pub open spec fn enumerated_prime_ok(k: int, p: u64) -> bool {
    is_nth_prime(k, p as int) || (p == 2 && forall|q: u64|
        !(#[trigger] is_nth_prime(k, q as int)))
}

/// Counting primes below a bound never decreases as the bound grows.
proof fn lemma_primes_below_monotone(a: int, b: int)
    requires
        a <= b,
    ensures
        primes_below(a) <= primes_below(b),
    decreases b - a,
{
    if a < b {
        lemma_primes_below_monotone(a, b - 1);
    }
}

/// Every bound strictly above a prime counts that prime: the count at
/// the bound exceeds the count at the prime.
proof fn lemma_prime_raises_count(p: int, b: int)
    requires
        spec_is_prime(p),
        p < b,
    ensures
        primes_below(b) >= primes_below(p) + 1,
{
    lemma_primes_below_monotone(p + 1, b);
}

/// Each rank holds at most one prime: two primes of the same rank are
/// the same value.
pub proof fn lemma_nth_prime_unique(k: int, p1: int, p2: int)
    requires
        is_nth_prime(k, p1),
        is_nth_prime(k, p2),
    ensures
        p1 == p2,
{
    if p1 < p2 {
        lemma_prime_raises_count(p1, p2);
    } else if p2 < p1 {
        lemma_prime_raises_count(p2, p1);
    }
}

/// The enumeration is strictly increasing: a prime of lower rank is
/// strictly smaller than one of higher rank.
pub proof fn lemma_nth_prime_strictly_increasing(k1: int, p1: int, k2: int, p2: int)
    requires
        k1 < k2,
        is_nth_prime(k1, p1),
        is_nth_prime(k2, p2),
    ensures
        p1 < p2,
{
    if p1 >= p2 {
        if p2 < p1 {
            lemma_prime_raises_count(p2, p1);
        }
        assert(false);
    }
}

/// Smallest candidate the random-sampling source draws.
pub const RANDOM_PRIME_MIN: u64 = 2;

/// Largest candidate the random-sampling source draws.
pub const RANDOM_PRIME_MAX: u64 = 1_000_000;

/// The two prime-source strategies.
#[derive(Clone, Copy, PartialEq, Eq, Structural, Debug)]
pub enum Method {
    /// Draw random candidates in a fixed range until one is prime.
    RandomSampling,
    /// Enumerate the primes in increasing order and take the one the
    /// iteration index points at.
    NthPrime,
}

/// What the selected prime source promises of the value it returns for
/// zero-based iteration `i`: always a prime; in the documented range
/// for the random source; for the enumerating source, the prime of
/// rank `i` counting 2 as rank 0, with the fallback 2 only when the
/// enumerator cannot produce that many primes.
pub open spec fn prime_ok(method: Method, i: int, p: u64) -> bool {
    match method {
        Method::RandomSampling => RANDOM_PRIME_MIN <= p <= RANDOM_PRIME_MAX && spec_is_prime(
            p as int,
        ),
        Method::NthPrime => spec_is_prime(p as int) && enumerated_prime_ok(i, p),
    }
}

/// Relies on rand's `thread_rng` and `Rng::gen_range`: a value sampled
/// uniformly from the inclusive range `lo..=hi`. The range must not be
/// empty, since `gen_range` panics on an empty range.
#[verifier::external_body]
fn random_in_range(lo: u64, hi: u64) -> (r: u64)
    requires
        lo <= hi,
    ensures
        lo <= r <= hi,
{
    rand::thread_rng().gen_range(lo..=hi)
}

/// Relies on `primal::is_prime`, the deterministic Miller-Rabin test,
/// exact for every u64 (its witness table covers the whole range):
/// whether `n` is prime.
#[verifier::external_body]
fn primal_is_prime(n: u64) -> (r: bool)
    ensures
        r == spec_is_prime(n as int),
{
    primal::is_prime(n)
}

/// Relies on `primal::Primes::all`, an iterator yielding every prime
/// in increasing order starting from 2: its `k`-th element
/// (zero-based), so exactly the prime of rank `k`. The fallback 2 is
/// returned only once the enumeration ends, which happens only past
/// the pointer-sized range — that is, only when no representable
/// value has rank `k`.
#[verifier::external_body]
fn primal_nth_prime(k: usize) -> (p: u64)
    ensures
        spec_is_prime(p as int),
        enumerated_prime_ok(k as int, p),
{
    primal::Primes::all().nth(k).map(|q| q as u64).unwrap_or(2)
}

/// How many random draws the sampling source makes before it settles
/// for the fallback prime. The density of primes below the range's
/// top makes exhausting this bound all but impossible.
pub const RANDOM_DRAW_ATTEMPTS: usize = 10_000;

/// Draws random candidates in the documented range until one passes
/// the primality test; if no draw succeeds within the attempt bound,
/// falls back to 2 rather than failing. Every returned value is a
/// prime in the range.
pub fn random_prime() -> (p: u64)
    ensures
        RANDOM_PRIME_MIN <= p <= RANDOM_PRIME_MAX,
        spec_is_prime(p as int),
{
    let mut attempts: usize = 0;
    while attempts < RANDOM_DRAW_ATTEMPTS
        decreases RANDOM_DRAW_ATTEMPTS - attempts,
    {
        let candidate: u64 = random_in_range(RANDOM_PRIME_MIN, RANDOM_PRIME_MAX);
        if primal_is_prime(candidate) {
            return candidate;
        }
        attempts = attempts + 1;
    }
    proof {
        assert(spec_is_prime(2));
    }
    2
}

/// The prime with 1-based ordinal `k`, counting 2 as the 1st; the
/// fallback 2 only when the enumerator cannot produce that many
/// primes.
pub fn nth_prime(k: usize) -> (p: u64)
    requires
        k >= 1,
    ensures
        spec_is_prime(p as int),
        enumerated_prime_ok(k - 1, p),
{
    primal_nth_prime(k - 1)
}

/// One invocation of the selected prime source for zero-based
/// iteration `i`. The enumerating source receives the 1-based ordinal
/// `i + 1`, so iteration 0 reports the first prime, 2.
pub fn generate_prime(method: Method, i: usize) -> (p: u64)
    requires
        i < usize::MAX,
    ensures
        prime_ok(method, i as int, p),
{
    match method {
        Method::RandomSampling => random_prime(),
        Method::NthPrime => nth_prime(i + 1),
    }
}

} // verus!
