use vstd::prelude::*;
use crate::problem::{ConvError, ConvProblem, ConvState};
use crate::solver::Converger;
use crate::types::{linear_mix, spec_eta_valid, spec_mix, ConvFloat};

verus! {

/// Stateless damping: each round blends the newly computed value with the
/// previous iterate, `eta * update(x) + (1 - eta) * x`. No history, no
/// failure modes beyond an invalid damping factor at construction.
pub struct LinearDamping<F> {
    /// The damping factor, in (0, 1].
    pub eta: F,
}

impl<F: ConvFloat> LinearDamping<F> {
    /// Accepts a damping factor in (0, 1] and refuses any other.
    pub fn new(eta: F) -> (r: Result<Self, ConvError>)
        ensures
            match r {
                Ok(l) => spec_eta_valid(eta) && l.eta == eta,
                Err(e) => e == ConvError::InvalidEta && !spec_eta_valid(eta),
            },
    {
        let zero = F::zero();
        let one = F::one();
        if zero.lt(&eta) && !one.lt(&eta) {
            Ok(LinearDamping { eta })
        } else {
            Err(ConvError::InvalidEta)
        }
    }
}

impl<F: ConvFloat> View for LinearDamping<F> {
    type V = LinearDamping<F>;

    open spec fn view(&self) -> LinearDamping<F> {
        *self
    }
}

/// One damping round as a function: the converger is unchanged, the
/// problem advances by one update, and the candidate is the damped blend
/// of the previous iterate and the update's result.
pub open spec fn linear_spec_next<P: ConvProblem>(
    lm: LinearDamping<P::Elem>,
    problem: P,
    state: ConvState<P>,
) -> (LinearDamping<P::Elem>, P, Result<P::Vector, ConvError>) {
    (
        lm,
        problem.post_update(state.input),
        Ok(spec_mix(lm.eta, state.input, problem.spec_update(state.input))),
    )
}

impl<P: ConvProblem> Converger<P> for LinearDamping<P::Elem> {
    open spec fn spec_next(v: LinearDamping<P::Elem>, problem: P, state: ConvState<P>) -> (
        LinearDamping<P::Elem>,
        P,
        Result<P::Vector, ConvError>,
    ) {
        linear_spec_next(v, problem, state)
    }

    fn next_iter(&mut self, problem: &mut P, state: &ConvState<P>) -> (r: Result<
        P::Vector,
        ConvError,
    >) {
        let curr = problem.update(&state.input);
        Ok(linear_mix(&self.eta, &state.input, &curr))
    }
}

} // verus!
