use vstd::prelude::*;
use crate::types::{ConvFloat, ConvVector};

verus! {

/// Why a run stopped, or that it has not stopped yet.
#[derive(Clone, Copy, PartialEq, Eq, Structural, Debug)]
pub enum TerminationReason {
    /// Solver not terminated yet
    NotTerminated,
    /// Max number of iterations reached
    MaxIterReached,
    /// Target tolerance reached
    ToleranceReached,
}

impl TerminationReason {
    /// A reason other than `NotTerminated` means the run is over.
    pub fn terminated(self) -> (r: bool)
        ensures
            r == !(self is NotTerminated),
    {
        !matches!(self, TerminationReason::NotTerminated)
    }

    /// The reason in words.
    pub fn text(&self) -> (r: &str)
        ensures
            *self is NotTerminated ==> r@ == "Not terminated"@,
            *self is MaxIterReached ==> r@ == "Maximum number of iterations reached"@,
            *self is ToleranceReached ==> r@ == "Target tolerance reached"@,
    {
        match *self {
            TerminationReason::NotTerminated => "Not terminated",
            TerminationReason::MaxIterReached => "Maximum number of iterations reached",
            TerminationReason::ToleranceReached => "Target tolerance reached",
        }
    }
}

impl Default for TerminationReason {
    /// A fresh state has not terminated.
    fn default() -> (r: Self)
        ensures
            r is NotTerminated,
    {
        TerminationReason::NotTerminated
    }
}

/// Everything that can go wrong in a run: invalid configuration, caught
/// when the configuration is made, and a failed dense solve during an
/// acceleration step, surfaced as a recoverable result. Running out of
/// iterations is not an error; it is reported as a `TerminationReason`.
#[derive(Clone, Copy, PartialEq, Eq, Structural, Debug)]
pub enum ConvError {
    /// The history window size is zero.
    InvalidDepth,
    /// The damping factor lies outside (0, 1].
    InvalidEta,
    /// The requested tolerance is not positive.
    InvalidTolerance,
    /// The bordered correlation matrix was singular, or the dense solve
    /// otherwise failed.
    Numerical,
}

/// A fixed-point problem, supplied by the caller: one application of the
/// update map, and a caller-defined error metric between steps. Both must
/// be pure functions of their vector arguments from the caller's point of
/// view: what they return, and how they advance the problem's own state,
/// may depend only on the problem value and the arguments. The
/// specification-level mirrors pin that down, which is what makes a whole
/// run a mathematical function of its inputs.
pub trait ConvProblem: Sized {
    /// The scalar element type of the problem's vectors.
    type Elem: ConvFloat;

    /// The vector type the iterates live in.
    type Vector: ConvVector<Self::Elem>;

    /// What one application of the update map returns on `input`.
    spec fn spec_update(self, input: Self::Vector) -> Self::Vector;

    /// The problem's own state after one application of the update map.
    spec fn post_update(self, input: Self::Vector) -> Self;

    /// What the caller's error metric returns.
    spec fn spec_residual(self, input: Self::Vector, output: Self::Vector) -> Self::Elem;

    /// The problem's own state after the error metric was computed.
    spec fn post_residual(self, input: Self::Vector, output: Self::Vector) -> Self;

    /// The function to be computed at each step
    fn update(&mut self, input: &Self::Vector) -> (r: Self::Vector)
        ensures
            r == old(self).spec_update(*input),
            *final(self) == old(self).post_update(*input),
    ;

    /// The residual to be computed between each step
    fn residual(&mut self, input: &Self::Vector, output: &Self::Vector) -> (r: Self::Elem)
        ensures
            r == old(self).spec_residual(*input, *output),
            *final(self) == old(self).post_residual(*input, *output),
    ;
}

/// Representation of the state of a problem
pub struct ConvState<P: ConvProblem> {
    /// Input array. Passed to update() at each step
    pub input: P::Vector,
    /// Cost - the value of the cost function at each step
    pub cost: P::Elem,
    /// Current iteration count
    pub iter: u64,
    /// Maximum iterations before failing
    pub max_iterations: u64,
    /// Tolerance below which solver stops
    pub tolerance: P::Elem,
    /// Termination reason
    pub termination_reason: TerminationReason,
}

impl<P: ConvProblem> ConvState<P> {
    /// Returns a ConvState object with the current state of the problem,
    /// not yet terminated, at iteration zero, with no iteration bound and
    /// a tolerance that no stopping metric is ever below.
    ///
    /// # Arguments
    ///
    /// * input - the input for the problem at the next step
    pub fn new(input: P::Vector) -> (r: Self)
        ensures
            r.input == input,
            r.cost == <P::Elem as ConvFloat>::spec_inf(),
            r.iter == 0u64,
            r.max_iterations == u64::MAX,
            r.tolerance == <P::Elem as ConvFloat>::spec_neg_inf(),
            r.termination_reason is NotTerminated,
    {
        ConvState {
            input,
            cost: <P::Elem as ConvFloat>::infinity(),
            iter: 0,
            max_iterations: u64::MAX,
            tolerance: <P::Elem as ConvFloat>::neg_infinity(),
            termination_reason: TerminationReason::NotTerminated,
        }
    }
}

} // verus!
