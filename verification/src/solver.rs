use vstd::prelude::*;
use crate::problem::{ConvError, ConvProblem, ConvState, TerminationReason};
use crate::types::{ConvFloat, ConvVector};

verus! {

/// Trait required for representation of a solver: asked once per round for
/// the next candidate iterate. A converger may advance its own history and
/// the problem, but only reads the iteration state. `spec_next` is the
/// converger's step as a mathematical function over its view: every
/// implementation must prove its `next_iter` equal to it, which is what
/// makes a whole run deterministic.
pub trait Converger<P: ConvProblem>: Sized + View {
    /// The converger's step as a function of its view, the problem and the
    /// state: the view afterwards, the problem afterwards, and the
    /// candidate iterate or the error that stopped the step.
    spec fn spec_next(v: Self::V, problem: P, state: ConvState<P>) -> (
        Self::V,
        P,
        Result<P::Vector, ConvError>,
    );

    /// The function that controls what happens at each step
    fn next_iter(&mut self, problem: &mut P, state: &ConvState<P>) -> (r: Result<
        P::Vector,
        ConvError,
    >)
        ensures
            (final(self)@, *final(problem), r) == Self::spec_next(old(self)@, *old(problem), *state),
    ;
}

/// Struct to store information about solution
pub struct ConvSolution<P: ConvProblem> {
    /// Solution array
    pub solution: P::Vector,
    /// Number of iterations required to reach solution
    pub iterations: u64,
    /// Why the run stopped
    pub termination_reason: TerminationReason,
}

impl<P: ConvProblem> ConvSolution<P> {
    /// Returns a ConvSolution object containing the calculated solution,
    /// with the termination reason still unset.
    ///
    /// # Arguments
    ///
    /// * solution - vector with the solution calculated by a Solver object
    ///
    /// * iterations - Number of iterations it took the Solver to solve the problem
    pub fn new(solution: P::Vector, iterations: u64) -> (r: Self)
        ensures
            r.solution == solution,
            r.iterations == iterations,
            r.termination_reason is NotTerminated,
    {
        ConvSolution { solution, iterations, termination_reason: TerminationReason::NotTerminated }
    }
}

/// What a whole run returns, as a function of the converger's view, the
/// problem and the state: ask the converger for a candidate, stop with
/// `ToleranceReached` when the stopping metric between the current iterate
/// and the candidate is below the tolerance (the candidate itself is not
/// committed), otherwise commit it and count the iteration, and stop with
/// `MaxIterReached` when the count reaches the bound. A failed step stops
/// the run with its error.
pub open spec fn spec_run<P: ConvProblem, C: Converger<P>>(
    cv: C::V,
    problem: P,
    st: ConvState<P>,
) -> Result<ConvSolution<P>, ConvError>
    decreases st.max_iterations - st.iter,
{
    if st.iter >= st.max_iterations {
        Ok(
            ConvSolution {
                solution: st.input,
                iterations: st.iter,
                termination_reason: TerminationReason::MaxIterReached,
            },
        )
    } else {
        let (cv2, p2, r) = C::spec_next(cv, problem, st);
        match r {
            Err(e) => Err(e),
            Ok(candidate) => if st.input.spec_l1_diff(candidate).spec_lt(st.tolerance) {
                Ok(
                    ConvSolution {
                        solution: st.input,
                        iterations: st.iter,
                        termination_reason: TerminationReason::ToleranceReached,
                    },
                )
            } else {
                spec_run::<P, C>(
                    cv2,
                    p2,
                    ConvState { input: candidate, iter: (st.iter + 1) as u64, ..st },
                )
            },
        }
    }
}

/// Fixed configuration, fixed initial guess, fixed problem: the whole run
/// is one value. Repeated runs of equal inputs return equal solutions and
/// equal iteration counts.
pub proof fn lemma_run_deterministic<P: ConvProblem, C: Converger<P>>(
    cv1: C::V,
    problem1: P,
    st1: ConvState<P>,
    cv2: C::V,
    problem2: P,
    st2: ConvState<P>,
)
    requires
        cv1 == cv2,
        problem1 == problem2,
        st1 == st2,
    ensures
        spec_run::<P, C>(cv1, problem1, st1) == spec_run::<P, C>(cv2, problem2, st2),
{
}

/// Representation of a Solver
pub struct Solver<P: ConvProblem, C: Converger<P>> {
    /// Generic solver implementation
    converger: C,
    /// Generic problem representation
    problem: P,
    /// State of the problem at the current step
    state: ConvState<P>,
}

impl<P: ConvProblem, C: Converger<P>> View for Solver<P, C> {
    type V = (C::V, P, ConvState<P>);

    closed spec fn view(&self) -> (C::V, P, ConvState<P>) {
        (self.converger@, self.problem, self.state)
    }
}

impl<P: ConvProblem, C: Converger<P>> Solver<P, C> {
    /// Puts a converger, a problem and an initial guess together, with the
    /// default limits: no iteration bound, a tolerance never satisfied.
    pub fn new(converger: C, problem: P, initial_guess: P::Vector) -> (r: Self)
        ensures
            r@.0 == converger@,
            r@.1 == problem,
            r@.2.input == initial_guess,
            r@.2.cost == <P::Elem as ConvFloat>::spec_inf(),
            r@.2.iter == 0u64,
            r@.2.max_iterations == u64::MAX,
            r@.2.tolerance == <P::Elem as ConvFloat>::spec_neg_inf(),
            r@.2.termination_reason is NotTerminated,
    {
        Solver { converger, problem, state: ConvState::new(initial_guess) }
    }

    /// Runs the driving loop to termination: what it returns is exactly
    /// `spec_run` of the solver's parts.
    #[verifier::loop_isolation(false)]
    pub fn run(self) -> (r: Result<ConvSolution<P>, ConvError>)
        ensures
            r == spec_run::<P, C>(self@.0, self@.1, self@.2),
    {
        let mut s = self;
        let ghost goal = spec_run::<P, C>(s.converger@, s.problem, s.state);
        loop
            invariant
                spec_run::<P, C>(s.converger@, s.problem, s.state) == goal,
            decreases s.state.max_iterations - s.state.iter,
        {
            if s.state.iter >= s.state.max_iterations {
                return Ok(
                    ConvSolution {
                        solution: s.state.input,
                        iterations: s.state.iter,
                        termination_reason: TerminationReason::MaxIterReached,
                    },
                );
            }
            let stepped = s.converger.next_iter(&mut s.problem, &s.state);
            match stepped {
                Err(e) => {
                    return Err(e);
                },
                Ok(candidate) => {
                    let diff = s.state.input.l1_diff(&candidate);
                    if diff.lt(&s.state.tolerance) {
                        return Ok(
                            ConvSolution {
                                solution: s.state.input,
                                iterations: s.state.iter,
                                termination_reason: TerminationReason::ToleranceReached,
                            },
                        );
                    }
                    let next_iter_count = s.state.iter + 1;
                    s.update_state(candidate, next_iter_count);
                },
            }
        }
    }

    /// Commits a candidate iterate and the new iteration count.
    pub fn update_state(&mut self, new_input: P::Vector, new_iter: u64)
        ensures
            final(self)@.0 == old(self)@.0,
            final(self)@.1 == old(self)@.1,
            final(self)@.2 == (ConvState { input: new_input, iter: new_iter, ..old(self)@.2 }),
    {
        self.state.input = new_input;
        self.state.iter = new_iter;
    }

    /// Bounds the number of iterations.
    pub fn max_iters(self, max_iter: u64) -> (r: Self)
        ensures
            r@.0 == self@.0,
            r@.1 == self@.1,
            r@.2 == (ConvState { max_iterations: max_iter, ..self@.2 }),
    {
        let mut s = self;
        s.state.max_iterations = max_iter;
        s
    }

    /// Sets the tolerance below which the run stops. A tolerance that is
    /// not positive is an invalid configuration and is refused.
    pub fn tolerance(self, tol: P::Elem) -> (r: Result<Self, ConvError>)
        ensures
            match r {
                Ok(s) => <P::Elem as ConvFloat>::spec_zero().spec_lt(tol) && s@.0 == self@.0
                    && s@.1 == self@.1 && s@.2 == (ConvState { tolerance: tol, ..self@.2 }),
                Err(e) => e == ConvError::InvalidTolerance && !<P::Elem as ConvFloat>::spec_zero().spec_lt(tol),
            },
    {
        let zero = <P::Elem as ConvFloat>::zero();
        if zero.lt(&tol) {
            let mut s = self;
            s.state.tolerance = tol;
            Ok(s)
        } else {
            Err(ConvError::InvalidTolerance)
        }
    }
}

} // verus!
