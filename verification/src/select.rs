use vstd::prelude::*;
use crate::primes::Method;

verus! {

/// Which prime sources one program run covers.
#[derive(Clone, Copy, PartialEq, Eq, Structural, Debug)]
pub enum Selection {
    /// Run both sources sequentially, random-sampling first, then
    /// enumeration, and compare the two.
    All,
    /// Run one source only.
    Single(Method),
}

/// The startup method choice: the parsed value as given, or 0 — run
/// everything — when the input line was unparsable.
pub open spec fn spec_choice_or_default(parsed: Option<u64>) -> u64 {
    match parsed {
        Some(v) => v,
        None => 0,
    }
}

/// Maps the parsed method-choice input to the choice used for the
/// run: an unparsable line silently falls back to 0, never to an
/// error.
pub fn choice_or_default(parsed: Option<u64>) -> (c: u64)
    ensures
        c == spec_choice_or_default(parsed),
{
    match parsed {
        Some(v) => v,
        None => 0,
    }
}

/// The startup iteration count: the parsed value when positive, else
/// the default 1, so a run always has at least one iteration.
pub open spec fn spec_iterations_or_default(parsed: Option<u64>) -> u64 {
    match parsed {
        Some(v) => if v >= 1 {
            v
        } else {
            1
        },
        None => 1,
    }
}

/// Maps the parsed iteration-count input to the count used for the
/// run: unparsable or non-positive input silently falls back to 1,
/// never to an error, so the count is always positive.
pub fn iterations_or_default(parsed: Option<u64>) -> (n: u64)
    ensures
        n == spec_iterations_or_default(parsed),
        n >= 1,
{
    match parsed {
        Some(v) => if v >= 1 {
            v
        } else {
            1
        },
        None => 1,
    }
}

/// The sources a choice selects: 1 and 2 pick one source each; 0 and
/// every unrecognized value run both.
pub open spec fn spec_select(choice: u64) -> Selection {
    if choice == 1 {
        Selection::Single(Method::RandomSampling)
    } else if choice == 2 {
        Selection::Single(Method::NthPrime)
    } else {
        Selection::All
    }
}

/// Resolves the startup choice, made once and fixed for the whole
/// run.
pub fn select(choice: u64) -> (s: Selection)
    ensures
        s == spec_select(choice),
{
    if choice == 1 {
        Selection::Single(Method::RandomSampling)
    } else if choice == 2 {
        Selection::Single(Method::NthPrime)
    } else {
        Selection::All
    }
}

} // verus!
