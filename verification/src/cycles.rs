//! The outer loop of the Rigby-Stasinopoulos fit: how many cycles run and when
//! the fit counts as converged.
//!
//! Each cycle scores and updates every distribution parameter in turn and then
//! evaluates the global deviance; that numeric work is done by the caller. The
//! loop is told, per cycle, whether every parameter's change in its linear
//! predictor stayed below the coefficient tolerance and whether the change of
//! the global deviance did. Convergence needs both, and the deviance test only
//! counts from the second cycle on, where there is a previous deviance to
//! compare with.

use vstd::prelude::*;

verus! {

/// Another cycle runs from progress `v`: not converged, budget not spent.
pub open spec fn cycle_wanted(v: (nat, nat, bool)) -> bool {
    !v.2 && v.1 < v.0
}

/// Progress `v` after one more cycle with the given test outcomes.
pub open spec fn cycle_step(v: (nat, nat, bool), params_settled: bool, deviance_settled: bool) -> (
    nat,
    nat,
    bool,
) {
    (v.0, v.1 + 1, params_settled && deviance_settled && v.1 > 0)
}

/// The progress of a loop with budget `max` that is offered the test outcomes
/// `outs` (parameters settled, deviance settled) of successive cycles and runs
/// each while it still wants a cycle.
pub open spec fn run_cycles(max: nat, outs: Seq<(bool, bool)>) -> (nat, nat, bool)
    decreases outs.len(),
{
    if outs.len() == 0 {
        (max, 0nat, false)
    } else {
        let v = run_cycles(max, outs.drop_last());
        if cycle_wanted(v) {
            cycle_step(v, outs.last().0, outs.last().1)
        } else {
            v
        }
    }
}

/// Both tests of cycle `j` passed.
pub open spec fn settled(outs: Seq<(bool, bool)>, j: int) -> bool {
    outs[j].0 && outs[j].1
}

/// Law: a loop that sees no cycle after the first pass both tests runs every
/// cycle it is offered, up to its budget, and does not converge.
pub proof fn unsettled_loop_spends_its_budget(max: nat, outs: Seq<(bool, bool)>)
    requires
        forall|j: int| 1 <= j < outs.len() && j < max ==> !#[trigger] settled(outs, j),
    ensures
        run_cycles(max, outs) == (max, if outs.len() < max {
            outs.len()
        } else {
            max
        }, false),
    decreases outs.len(),
{
    if outs.len() > 0 {
        let prev = outs.drop_last();
        assert forall|j: int| 1 <= j < prev.len() && j < max implies !#[trigger] settled(prev, j) by {
            assert(settled(prev, j) == settled(outs, j));
        }
        unsettled_loop_spends_its_budget(max, prev);
        if prev.len() < max && prev.len() >= 1 {
            assert(!settled(outs, prev.len() as int));
        }
    }
}

/// Law: the loop converges at the first cycle after the first in which both
/// tests pass, having run exactly that many cycles, and runs no cycle after it.
pub proof fn loop_stops_at_first_settled_cycle(max: nat, outs: Seq<(bool, bool)>, k: int)
    requires
        1 <= k < outs.len(),
        k < max,
        settled(outs, k),
        forall|j: int| 1 <= j < k ==> !#[trigger] settled(outs, j),
    ensures
        run_cycles(max, outs) == (max, (k + 1) as nat, true),
    decreases outs.len(),
{
    let prev = outs.drop_last();
    if outs.len() == k + 1 {
        assert forall|j: int| 1 <= j < prev.len() && j < max implies !#[trigger] settled(prev, j) by {
            assert(settled(prev, j) == settled(outs, j));
        }
        unsettled_loop_spends_its_budget(max, prev);
    } else {
        assert forall|j: int| 1 <= j < k implies !#[trigger] settled(prev, j) by {
            assert(settled(prev, j) == settled(outs, j));
        }
        assert(settled(prev, k) == settled(outs, k));
        loop_stops_at_first_settled_cycle(max, prev, k);
    }
}

/// The progress of a fit's outer loop.
#[derive(Debug, Clone, Copy)]
pub struct FitCycles {
    max_iterations: usize,
    iterations: usize,
    converged: bool,
}

impl View for FitCycles {
    /// The cycle budget, the cycles run so far, and whether the fit converged.
    type V = (nat, nat, bool);

    closed spec fn view(&self) -> (nat, nat, bool) {
        (self.max_iterations as nat, self.iterations as nat, self.converged)
    }
}

impl FitCycles {
    #[verifier::type_invariant]
    closed spec fn consistent(self) -> bool {
        &&& self.iterations <= self.max_iterations
        &&& self.converged ==> self.iterations >= 2
    }

    /// A fit that may run up to `max_iterations` cycles and has run none.
    pub fn new(max_iterations: usize) -> (r: Self)
        ensures
            r@ == (max_iterations as nat, 0nat, false),
    {
        FitCycles { max_iterations, iterations: 0, converged: false }
    }

    /// Whether another cycle runs: the fit has not converged and its cycle
    /// budget is not spent.
    pub fn wants_cycle(&self) -> (r: bool)
        ensures
            r == cycle_wanted(self@),
    {
        !self.converged && self.iterations < self.max_iterations
    }

    /// Records one finished cycle. `params_settled` says that every parameter's
    /// change in its linear predictor, relative to its scale, stayed below the
    /// coefficient tolerance; `deviance_settled` that the absolute change of the
    /// global deviance from the previous cycle is below the deviance tolerance
    /// (it is not read on the first cycle, which has no previous deviance). The
    /// fit converges when both hold after the first cycle. Returns whether this
    /// cycle has a deviance change to report: every cycle but the first.
    pub fn finish_cycle(&mut self, params_settled: bool, deviance_settled: bool) -> (reported: bool)
        requires
            cycle_wanted(old(self)@),
        ensures
            final(self)@ == cycle_step(old(self)@, params_settled, deviance_settled),
            reported == (old(self)@.1 > 0),
    {
        let reported = self.iterations > 0;
        self.iterations = self.iterations + 1;
        self.converged = params_settled && deviance_settled && reported;
        reported
    }

    /// Whether the fit converged. A fit never converges on its first cycle.
    pub fn converged(&self) -> (r: bool)
        ensures
            r == self@.2,
            r ==> self@.1 >= 2,
    {
        proof {
            use_type_invariant(self);
        }
        self.converged
    }

    /// The number of cycles run, never more than the budget.
    pub fn iterations(&self) -> (r: usize)
        ensures
            r == self@.1,
            r <= self@.0,
    {
        proof {
            use_type_invariant(self);
        }
        self.iterations
    }
}

} // verus!
