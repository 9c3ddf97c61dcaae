//! The integer search behind the quantile of a discrete family: the smallest
//! non-negative integer `k` whose CDF reaches a probability `p`, found by a
//! doubling bracket and then bisection, so that it costs `O(log k)` CDF
//! evaluations even for large means.
//!
//! The CDF is numeric and is evaluated by the caller: the search says which
//! point to evaluate next ([`SearchStep::Evaluate`]) and takes back whether the
//! CDF at that point reached `p`, until it can name the answer
//! ([`SearchStep::Finish`]).

use vstd::prelude::*;

verus! {

/// Where the search stands.
#[derive(Debug, Clone, Copy, PartialEq, Eq, Structural)]
pub enum SearchState {
    /// Nothing evaluated yet; the first point asked for is 0.
    Start,
    /// Doubling: the CDF at `lo` is below `p`; `hi` is asked for next.
    Bracket { lo: u64, hi: u64 },
    /// Bisecting: the CDF at `lo` is below `p` and reaches it at `hi`.
    Bisect { lo: u64, hi: u64 },
    /// The answer.
    Done { level: u64 },
}

/// What the caller does next.
#[derive(Debug, Clone, Copy, PartialEq, Eq, Structural)]
pub enum SearchStep {
    /// Evaluate the CDF at this point and report whether it reaches `p`.
    Evaluate(u64),
    /// The search is over: this is the quantile.
    Finish(u64),
}

/// The shapes of state the search can be in.
pub open spec fn state_wf(s: SearchState) -> bool {
    match s {
        SearchState::Bracket { lo, hi } => lo < hi && hi >= 1,
        SearchState::Bisect { lo, hi } => hi - lo > 1,
        _ => true,
    }
}

/// `2·x`, saturating at `u64::MAX`.
pub open spec fn saturating_double(x: u64) -> u64 {
    if 2 * x > u64::MAX {
        u64::MAX
    } else {
        (2 * x) as u64
    }
}

/// The midpoint that bisection evaluates.
pub open spec fn midpoint(lo: u64, hi: u64) -> u64 {
    (lo + (hi - lo) / 2) as u64
}

/// What the search asks for in state `s`.
pub open spec fn search_step(s: SearchState) -> SearchStep {
    match s {
        SearchState::Start => SearchStep::Evaluate(0),
        SearchState::Bracket { lo, hi } => SearchStep::Evaluate(hi),
        SearchState::Bisect { lo, hi } => SearchStep::Evaluate(midpoint(lo, hi)),
        SearchState::Done { level } => SearchStep::Finish(level),
    }
}

/// Bisection on `[lo, hi]`, or the answer `hi` once the two are adjacent.
pub open spec fn narrowed(lo: u64, hi: u64) -> SearchState {
    if hi - lo > 1 {
        SearchState::Bisect { lo, hi }
    } else {
        SearchState::Done { level: hi }
    }
}

/// The next state, given whether the CDF at the point asked for reached `p`.
pub open spec fn search_advance(s: SearchState, reached: bool) -> SearchState {
    match s {
        SearchState::Start => if reached {
            SearchState::Done { level: 0 }
        } else {
            SearchState::Bracket { lo: 0, hi: 1 }
        },
        SearchState::Bracket { lo, hi } => if reached {
            narrowed(lo, hi)
        } else if saturating_double(hi) == hi {
            SearchState::Done { level: hi }
        } else {
            SearchState::Bracket { lo: hi, hi: saturating_double(hi) }
        },
        SearchState::Bisect { lo, hi } => if reached {
            narrowed(lo, midpoint(lo, hi))
        } else {
            narrowed(midpoint(lo, hi), hi)
        },
        SearchState::Done { level } => s,
    }
}

/// The state machine of a discrete quantile search.
pub struct QuantileSearch {
    state: SearchState,
}

impl View for QuantileSearch {
    type V = SearchState;

    closed spec fn view(&self) -> SearchState {
        self.state
    }
}

impl QuantileSearch {
    #[verifier::type_invariant]
    closed spec fn well_formed(self) -> bool {
        state_wf(self.state)
    }

    /// A search that has evaluated nothing yet.
    pub fn new() -> (r: Self)
        ensures
            r@ == SearchState::Start,
            state_wf(r@),
    {
        QuantileSearch { state: SearchState::Start }
    }

    /// The point to evaluate next, or the answer.
    pub fn step(&self) -> (r: SearchStep)
        ensures
            r == search_step(self@),
            state_wf(self@),
    {
        proof {
            use_type_invariant(self);
        }
        match self.state {
            SearchState::Start => SearchStep::Evaluate(0),
            SearchState::Bracket { lo, hi } => SearchStep::Evaluate(hi),
            SearchState::Bisect { lo, hi } => SearchStep::Evaluate(lo + (hi - lo) / 2),
            SearchState::Done { level } => SearchStep::Finish(level),
        }
    }

    /// Takes whether the CDF at the point last asked for reached `p`.
    pub fn advance(self, reached: bool) -> (r: Self)
        ensures
            r@ == search_advance(self@, reached),
            state_wf(r@),
    {
        proof {
            use_type_invariant(&self);
        }
        let next = match self.state {
            SearchState::Start => if reached {
                SearchState::Done { level: 0 }
            } else {
                SearchState::Bracket { lo: 0, hi: 1 }
            },
            SearchState::Bracket { lo, hi } => if reached {
                if hi - lo > 1 {
                    SearchState::Bisect { lo, hi }
                } else {
                    SearchState::Done { level: hi }
                }
            } else {
                let doubled: u64 = if hi > u64::MAX / 2 { u64::MAX } else { hi * 2 };
                if doubled == hi {
                    SearchState::Done { level: hi }
                } else {
                    SearchState::Bracket { lo: hi, hi: doubled }
                }
            },
            SearchState::Bisect { lo, hi } => {
                let mid = lo + (hi - lo) / 2;
                let (a, b) = if reached {
                    (lo, mid)
                } else {
                    (mid, hi)
                };
                if b - a > 1 {
                    SearchState::Bisect { lo: a, hi: b }
                } else {
                    SearchState::Done { level: b }
                }
            },
            SearchState::Done { level } => SearchState::Done { level },
        };
        QuantileSearch { state: next }
    }
}

/// The CDF reaches `p` at every point at or past one where it does.
pub open spec fn monotone(reaches: spec_fn(u64) -> bool) -> bool {
    forall|a: u64, b: u64| a <= b && #[trigger] reaches(a) ==> #[trigger] reaches(b)
}

/// `k` is the smallest point where the CDF reaches `p`, or `u64::MAX` when no
/// point does.
pub open spec fn is_least_reaching(reaches: spec_fn(u64) -> bool, k: u64) -> bool {
    (forall|j: u64| j < k ==> !#[trigger] reaches(j)) && (reaches(k) || k == u64::MAX)
}

/// What the search knows about the predicate in each state.
pub open spec fn search_inv(s: SearchState, reaches: spec_fn(u64) -> bool) -> bool {
    match s {
        SearchState::Start => true,
        SearchState::Bracket { lo, hi } => !reaches(lo),
        SearchState::Bisect { lo, hi } => !reaches(lo) && reaches(hi),
        SearchState::Done { level } => is_least_reaching(reaches, level),
    }
}

/// A bound on the steps left before the search finishes.
pub open spec fn search_measure(s: SearchState) -> int {
    match s {
        SearchState::Start => 4 * 0x1_0000_0000_0000_0000int,
        SearchState::Bracket { lo, hi } => 2 * 0x1_0000_0000_0000_0000int + (u64::MAX - hi),
        SearchState::Bisect { lo, hi } => hi - lo,
        SearchState::Done { level } => 0,
    }
}

proof fn lemma_narrowed_keeps_inv(lo: u64, hi: u64, reaches: spec_fn(u64) -> bool)
    requires
        monotone(reaches),
        lo < hi,
        !reaches(lo),
        reaches(hi),
    ensures
        search_inv(narrowed(lo, hi), reaches),
        state_wf(narrowed(lo, hi)),
{
    if hi - lo <= 1 {
        assert forall|j: u64| j < hi implies !#[trigger] reaches(j) by {
            if reaches(j) {
                assert(j <= lo);
                assert(reaches(lo));
            }
        }
    }
}

/// Law: the search finds the least point where a monotone CDF reaches `p`.
/// Answered truthfully, every step keeps what the search knows and brings it
/// strictly closer to the end, and the answer it finishes with is the smallest
/// `k` whose CDF reaches `p` (`u64::MAX` when none does).
pub proof fn quantile_search_finds_least(s: SearchState, reaches: spec_fn(u64) -> bool)
    requires
        monotone(reaches),
        state_wf(s),
        search_inv(s, reaches),
    ensures
        search_inv(SearchState::Start, reaches),
        s matches SearchState::Done { level } ==> is_least_reaching(reaches, level),
        !(s is Done) ==> ({
            let next = match search_step(s) {
                SearchStep::Evaluate(k) => search_advance(s, reaches(k)),
                SearchStep::Finish(_) => s,
            };
            &&& state_wf(next)
            &&& search_inv(next, reaches)
            &&& 0 <= search_measure(next) < search_measure(s)
        }),
{
    match s {
        SearchState::Start => {
            if !reaches(0) {
                assert(search_inv(SearchState::Bracket { lo: 0, hi: 1 }, reaches));
            }
        },
        SearchState::Bracket { lo, hi } => {
            if reaches(hi) {
                lemma_narrowed_keeps_inv(lo, hi, reaches);
            } else if saturating_double(hi) == hi {
                assert forall|j: u64| j < hi implies !#[trigger] reaches(j) by {
                    if reaches(j) {
                        assert(reaches(hi));
                    }
                }
            }
        },
        SearchState::Bisect { lo, hi } => {
            let mid = midpoint(lo, hi);
            if reaches(mid) {
                lemma_narrowed_keeps_inv(lo, mid, reaches);
            } else {
                lemma_narrowed_keeps_inv(mid, hi, reaches);
            }
        },
        SearchState::Done { level } => {},
    }
}

} // verus!
