use vstd::prelude::*;
use crate::linear::{linear_spec_next, LinearDamping};
use crate::problem::{ConvError, ConvProblem, ConvState};
use crate::solver::Converger;
use crate::types::{
    linear_mix, mat_view, spec_eta_valid, spec_mix, ConvFloat, ConvVector, CoeffsView, SystemView,
};

verus! {

/// The DIIS (Pulay mixing) accelerator: a bounded FIFO window of the most
/// recent iterates paired with their residuals `update(x) - x`. While the
/// window is still filling it falls back to plain damping; once full it
/// extrapolates through the solution of a bordered correlation system.
pub struct DIIS<P: ConvProblem> {
    /// The history window size, at least 1.
    pub depth: usize,
    /// The damping factor, in (0, 1].
    pub eta: P::Elem,
    /// How many consecutive acceleration steps are taken before the window
    /// is cleared and filling starts over; a value below 1 disables the
    /// restart policy.
    pub restart: i64,
    /// The window, oldest first: each entry pairs an iterate with its
    /// residual.
    history: Vec<(P::Vector, P::Vector)>,
    /// Consecutive acceleration steps taken since the window last filled
    /// or was cleared; counted only while the restart policy is enabled.
    accel_steps: u64,
}

/// What a `DIIS` value holds, with the window as a sequence.
#[verifier::ext_equal]
pub struct DIISView<P: ConvProblem> {
    /// The history window size.
    pub depth: usize,
    /// The damping factor.
    pub eta: P::Elem,
    /// The restart period; below 1 means disabled.
    pub restart: i64,
    /// The window, oldest first: iterates paired with their residuals.
    pub history: Seq<(P::Vector, P::Vector)>,
    /// Consecutive acceleration steps since the window last filled or was
    /// cleared.
    pub accel_steps: u64,
}

impl<P: ConvProblem> View for DIIS<P> {
    type V = DIISView<P>;

    closed spec fn view(&self) -> DIISView<P> {
        DIISView {
            depth: self.depth,
            eta: self.eta,
            restart: self.restart,
            history: self.history@,
            accel_steps: self.accel_steps,
        }
    }
}

/// Whether the restart policy clears the window before the coming round.
pub open spec fn spec_restart_due<P: ConvProblem>(v: DIISView<P>) -> bool {
    v.restart >= 1 && v.accel_steps >= v.restart as u64
}

/// The iterates of a window, oldest first.
pub open spec fn window_iterates<V>(h: Seq<(V, V)>) -> Seq<V> {
    h.map_values(|pair: (V, V)| pair.0)
}

/// The residuals of a window, oldest first.
pub open spec fn window_residuals<V>(h: Seq<(V, V)>) -> Seq<V> {
    h.map_values(|pair: (V, V)| pair.1)
}

/// Entry (i, j) of the Gram block: the dot product of residuals i and j,
/// taken once per unordered pair, so the block is symmetric by
/// construction.
pub open spec fn gram_entry<S: ConvFloat, V: ConvVector<S>>(res: Seq<V>, i: int, j: int) -> S {
    if i <= j {
        res[i].spec_dot(res[j])
    } else {
        res[j].spec_dot(res[i])
    }
}

/// The bordered correlation matrix of a residual history of length `d`:
/// the `d x d` Gram block of pairwise residual dot products, bordered by a
/// row and a column holding -1, with 0 in the corner. The border encodes,
/// through a Lagrange multiplier, the constraint that the mixing
/// coefficients sum to 1.
pub open spec fn spec_b_matrix<S: ConvFloat, V: ConvVector<S>>(res: Seq<V>, d: nat) -> Seq<
    Seq<S>,
> {
    Seq::new(
        d + 1,
        |i: int|
            Seq::new(
                d + 1,
                |j: int|
                    if i < d && j < d {
                        gram_entry(res, i, j)
                    } else if i == d && j == d {
                        S::spec_zero()
                    } else {
                        S::spec_neg_one()
                    },
            ),
    )
}

/// The constraint vector: zero everywhere except -1 in the border
/// position.
pub open spec fn spec_rhs<S: ConvFloat>(d: nat) -> Seq<S> {
    Seq::new(
        d + 1,
        |i: int|
            if i == d {
                S::spec_neg_one()
            } else {
                S::spec_zero()
            },
    )
}

/// The left-to-right sum of the first `n` vectors, each scaled by its own
/// coefficient.
pub open spec fn spec_weighted_sum<S: ConvFloat, V: ConvVector<S>>(
    vs: Seq<V>,
    cs: Seq<S>,
    n: nat,
) -> V
    decreases n,
{
    if n <= 1 {
        vs[0].spec_scale(cs[0])
    } else {
        spec_weighted_sum(vs, cs, (n - 1) as nat).spec_vadd(
            vs[n - 1].spec_scale(cs[n - 1]),
        )
    }
}

/// One acceleration round on a full window: build the bordered system from
/// the first `depth` residuals of the window, solve it, extrapolate
/// `sum_i c_i x_i + eta * sum_i c_i r_i`, and slide the window one place
/// (paired FIFO eviction). A failed solve leaves the accelerator unchanged
/// and reports `Numerical`.
pub open spec fn spec_accel_step<P: ConvProblem>(
    v: DIISView<P>,
    prev: P::Vector,
    curr: P::Vector,
) -> (DIISView<P>, Result<P::Vector, ConvError>) {
    let d = v.depth as nat;
    let window = v.history.subrange(0, v.depth as int);
    let res = window_residuals(window);
    match <P::Elem as ConvFloat>::spec_solve(
        SystemView { matrix: spec_b_matrix(res, d), rhs: spec_rhs(d) },
    ) {
        None => (v, Err(ConvError::Numerical)),
        Some(cv) => {
            let c = cv.coeffs;
            let xs = window_iterates(window);
            let out = spec_weighted_sum(xs, c, d).spec_vadd(
                spec_weighted_sum(res, c, d).spec_scale(v.eta),
            );
            let rv = curr.spec_vsub(prev);
            let new_steps: u64 = if v.restart >= 1 {
                (v.accel_steps + 1) as u64
            } else {
                0u64
            };
            (
                DIISView {
                    history: v.history.push((curr, rv)).remove(0),
                    accel_steps: new_steps,
                    ..v
                },
                Ok(out),
            )
        },
    }
}

/// The whole DIIS round as a function: apply the update map once, clear
/// the window first if a restart is due, then either take a plain damping
/// round while the window is still filling (appending the new pair, no
/// eviction needed) or an acceleration round on the full window.
pub open spec fn diis_spec_next<P: ConvProblem>(
    v: DIISView<P>,
    problem: P,
    state: ConvState<P>,
) -> (DIISView<P>, P, Result<P::Vector, ConvError>) {
    let prev = state.input;
    let curr = problem.spec_update(prev);
    let p2 = problem.post_update(prev);
    let v1 = if spec_restart_due(v) {
        DIISView { history: Seq::empty(), accel_steps: 0u64, ..v }
    } else {
        v
    };
    if v1.depth >= 1 && v1.history.len() >= v1.depth {
        let stepped = spec_accel_step(v1, prev, curr);
        (stepped.0, p2, stepped.1)
    } else {
        (
            DIISView { history: v1.history.push((curr, curr.spec_vsub(prev))), ..v1 },
            p2,
            Ok(spec_mix(v1.eta, prev, curr)),
        )
    }
}

/// Builds the bordered correlation matrix of a residual history.
#[verifier::loop_isolation(false)]
pub fn bordered_matrix<S: ConvFloat, V: ConvVector<S>>(residuals: &Vec<V>) -> (m: Vec<Vec<S>>)
    ensures
        mat_view(m@) == spec_b_matrix::<S, V>(residuals@, residuals@.len()),
{
    let d = residuals.len();
    let ghost target = spec_b_matrix::<S, V>(residuals@, residuals@.len());
    let mut m: Vec<Vec<S>> = Vec::new();
    for i in 0..d
        invariant
            m@.len() == i,
            forall|k: int| 0 <= k < i ==> m@[k]@ == target[k],
    {
        let mut row: Vec<S> = Vec::new();
        for j in 0..d
            invariant
                row@.len() == j,
                forall|k: int| 0 <= k < j ==> row@[k] == target[i as int][k],
        {
            let entry = if i <= j {
                residuals[i].dot(&residuals[j])
            } else {
                residuals[j].dot(&residuals[i])
            };
            row.push(entry);
        }
        row.push(S::neg_one());
        proof {
            assert(row@ =~= target[i as int]);
        }
        m.push(row);
    }
    let mut border: Vec<S> = Vec::new();
    for j in 0..d
        invariant
            border@.len() == j,
            forall|k: int| 0 <= k < j ==> border@[k] == target[d as int][k],
    {
        border.push(S::neg_one());
    }
    border.push(S::zero());
    proof {
        assert(border@ =~= target[d as int]);
    }
    m.push(border);
    proof {
        assert(mat_view(m@) =~= target);
    }
    m
}

/// Solves the bordered system for the mixing coefficients: `Ok` with the
/// backend's solution, of length one more than the history, exactly when
/// the backend's dense solve succeeds, and `Numerical` exactly when it
/// reports the bordered matrix singular.
#[verifier::loop_isolation(false)]
pub fn diis_coefficients<S: ConvFloat, V: ConvVector<S>>(residuals: &Vec<V>) -> (r: Result<
    Vec<S>,
    ConvError,
>)
    ensures
        ({
            let sys = SystemView {
                matrix: spec_b_matrix::<S, V>(residuals@, residuals@.len()),
                rhs: spec_rhs::<S>(residuals@.len()),
            };
            match r {
                Ok(c) => S::spec_solve(sys) == Some(CoeffsView { coeffs: c@ }) && c@.len()
                    == residuals@.len() + 1,
                Err(e) => e == ConvError::Numerical && S::spec_solve(sys) is None,
            }
        }),
{
    let d = residuals.len();
    let m = bordered_matrix(residuals);
    let mut rhs: Vec<S> = Vec::new();
    for i in 0..d
        invariant
            rhs@.len() == i,
            forall|k: int| 0 <= k < i ==> rhs@[k] == S::spec_zero(),
    {
        rhs.push(S::zero());
    }
    rhs.push(S::neg_one());
    proof {
        assert(rhs@ =~= spec_rhs::<S>(residuals@.len()));
    }
    match S::solve_dense(&m, &rhs) {
        Some(c) => Ok(c),
        None => Err(ConvError::Numerical),
    }
}

impl<P: ConvProblem> DIIS<P> {
    /// Accepts a window size of at least 1 and a damping factor in (0, 1];
    /// refuses anything else. The window starts empty.
    pub fn new(eta: P::Elem, depth: usize, restart: i64) -> (r: Result<Self, ConvError>)
        ensures
            match r {
                Ok(d) => depth >= 1 && spec_eta_valid(eta) && d@ == (DIISView::<P> {
                    depth,
                    eta,
                    restart,
                    history: Seq::empty(),
                    accel_steps: 0u64,
                }),
                Err(e) => (e == ConvError::InvalidDepth && depth == 0) || (e
                    == ConvError::InvalidEta && depth >= 1 && !spec_eta_valid(eta)),
            },
    {
        if depth == 0 {
            return Err(ConvError::InvalidDepth);
        }
        let zero = <P::Elem as ConvFloat>::zero();
        let one = <P::Elem as ConvFloat>::one();
        if zero.lt(&eta) && !one.lt(&eta) {
            let d = DIIS { depth, eta, restart, history: Vec::new(), accel_steps: 0 };
            proof {
                assert(d@ =~= (DIISView::<P> {
                    depth,
                    eta,
                    restart,
                    history: Seq::empty(),
                    accel_steps: 0u64,
                }));
            }
            Ok(d)
        } else {
            Err(ConvError::InvalidEta)
        }
    }

    /// How many iterate/residual pairs the window currently holds.
    pub fn history_len(&self) -> (n: usize)
        ensures
            n == self@.history.len(),
    {
        self.history.len()
    }

    /// One damping round while the window is still filling: blends the new
    /// iterate with the previous one, then appends the pair of the new
    /// iterate and its residual (no eviction needed, the window is not yet
    /// full).
    fn linear_mixing_step(&mut self, prev: &P::Vector, curr: P::Vector) -> (out: P::Vector)
        ensures
            final(self)@ == (DIISView {
                history: old(self)@.history.push((curr, curr.spec_vsub(*prev))),
                ..old(self)@
            }),
            out == spec_mix(old(self)@.eta, *prev, curr),
    {
        let rv = curr.vsub(prev);
        let out = linear_mix(&self.eta, prev, &curr);
        self.history.push((curr, rv));
        proof {
            assert(self@ =~= (DIISView {
                history: old(self)@.history.push((curr, curr.spec_vsub(*prev))),
                ..old(self)@
            }));
        }
        out
    }

    /// One acceleration round on a full window.
    #[verifier::loop_isolation(false)]
    fn diis_step(&mut self, prev: &P::Vector, curr: P::Vector) -> (r: Result<
        P::Vector,
        ConvError,
    >)
        requires
            old(self)@.depth >= 1,
            old(self)@.history.len() >= old(self)@.depth,
            old(self)@.restart >= 1 ==> old(self)@.accel_steps < old(self)@.restart as u64,
        ensures
            (final(self)@, r) == spec_accel_step(old(self)@, *prev, curr),
    {
        let d = self.depth;
        let ghost window = old(self)@.history.subrange(0, d as int);
        let mut res_list: Vec<P::Vector> = Vec::new();
        for i in 0..d
            invariant
                res_list@.len() == i,
                forall|k: int| 0 <= k < i ==> res_list@[k] == self@.history[k].1,
        {
            let rv_i = self.history[i].1.vclone();
            res_list.push(rv_i);
        }
        proof {
            assert(res_list@ =~= window_residuals(window));
        }
        let rv = curr.vsub(prev);
        match diis_coefficients::<P::Elem, P::Vector>(&res_list) {
            Err(e) => {
                proof {
                    assert((self@, Err::<P::Vector, ConvError>(e)) == spec_accel_step(
                        old(self)@,
                        *prev,
                        curr,
                    ));
                }
                Err(e)
            },
            Ok(c) => {
                let ghost xs = window_iterates(window);
                let ghost rs = window_residuals(window);
                let mut acc_x = self.history[0].0.scale(&c[0]);
                let mut acc_r = self.history[0].1.scale(&c[0]);
                proof {
                    assert(xs[0] == self@.history[0].0);
                    assert(rs[0] == self@.history[0].1);
                }
                for i in 1..d
                    invariant
                        acc_x == spec_weighted_sum::<P::Elem, P::Vector>(xs, c@, i as nat),
                        acc_r == spec_weighted_sum::<P::Elem, P::Vector>(rs, c@, i as nat),
                {
                    proof {
                        assert(xs[i as int] == self@.history[i as int].0);
                        assert(rs[i as int] == self@.history[i as int].1);
                    }
                    let term_x = self.history[i].0.scale(&c[i]);
                    acc_x = acc_x.vadd(&term_x);
                    let term_r = self.history[i].1.scale(&c[i]);
                    acc_r = acc_r.vadd(&term_r);
                }
                let correction = acc_r.scale(&self.eta);
                let out = acc_x.vadd(&correction);
                self.history.push((curr, rv));
                let _evicted = self.history.remove(0);
                if self.restart >= 1 {
                    self.accel_steps = self.accel_steps + 1;
                } else {
                    self.accel_steps = 0;
                }
                proof {
                    assert(self@ =~= spec_accel_step(old(self)@, *prev, curr).0);
                }
                Ok(out)
            },
        }
    }
}

impl<P: ConvProblem> Converger<P> for DIIS<P> {
    open spec fn spec_next(v: DIISView<P>, problem: P, state: ConvState<P>) -> (
        DIISView<P>,
        P,
        Result<P::Vector, ConvError>,
    ) {
        diis_spec_next(v, problem, state)
    }

    fn next_iter(&mut self, problem: &mut P, state: &ConvState<P>) -> (r: Result<
        P::Vector,
        ConvError,
    >) {
        let curr = problem.update(&state.input);
        if self.restart >= 1 && self.accel_steps >= (self.restart as u64) {
            self.history = Vec::new();
            self.accel_steps = 0;
        }
        let ghost v1 = if spec_restart_due(old(self)@) {
            DIISView { history: Seq::empty(), accel_steps: 0u64, ..old(self)@ }
        } else {
            old(self)@
        };
        proof {
            assert(self@ =~= v1);
        }
        if self.depth >= 1 && self.history.len() >= self.depth {
            self.diis_step(&state.input, curr)
        } else {
            let out = self.linear_mixing_step(&state.input, curr);
            proof {
                assert(self@ =~= diis_spec_next(v1, *old(problem), *state).0);
            }
            Ok(out)
        }
    }
}

/// Gram symmetry: in the bordered correlation matrix of any residual
/// history, the Gram block is symmetric, `B[i][j] == B[j][i]` for all
/// `i, j` below the depth.
pub proof fn lemma_gram_symmetric<S: ConvFloat, V: ConvVector<S>>(res: Seq<V>, d: nat)
    ensures
        forall|i: int, j: int|
            0 <= i < d && 0 <= j < d ==> spec_b_matrix::<S, V>(res, d)[i][j] == spec_b_matrix::<
                S,
                V,
            >(res, d)[j][i],
{
    let b = spec_b_matrix::<S, V>(res, d);
    assert forall|i: int, j: int| 0 <= i < d && 0 <= j < d implies b[i][j] == b[j][i] by {
        assert(b[i][j] == gram_entry(res, i, j));
        assert(b[j][i] == gram_entry(res, j, i));
    }
}

/// The window never outgrows its bound: whatever round a DIIS accelerator
/// with a positive depth takes, a window of length at most `depth` is
/// still of length at most `depth` afterwards — memory stays bounded no
/// matter how long the run is.
pub proof fn lemma_window_bounded<P: ConvProblem>(
    v: DIISView<P>,
    problem: P,
    state: ConvState<P>,
)
    requires
        v.depth >= 1,
        v.history.len() <= v.depth,
    ensures
        diis_spec_next(v, problem, state).0.history.len() <= v.depth,
{
}

/// While the window is still filling (and no restart is due), a round
/// appends the new iterate/residual pair and evicts nothing, so the window
/// grows by exactly one pair: after `depth` such rounds the window is full
/// and stays full from then on.
pub proof fn lemma_filling_extends<P: ConvProblem>(
    v: DIISView<P>,
    problem: P,
    state: ConvState<P>,
)
    requires
        v.history.len() < v.depth,
        !spec_restart_due(v),
    ensures
        ({
            let curr = problem.spec_update(state.input);
            diis_spec_next(v, problem, state).0.history == v.history.push(
                (curr, curr.spec_vsub(state.input)),
            )
        }),
        diis_spec_next(v, problem, state).0.history.len() == v.history.len() + 1,
{
}

/// FIFO bound: an acceleration round on a window of length exactly `depth`
/// keeps the length exactly `depth`; the oldest pair is evicted, every
/// surviving pair moves one place toward the front, and the new pair is
/// appended at the back.
pub proof fn lemma_fifo_bound<P: ConvProblem>(v: DIISView<P>, problem: P, state: ConvState<P>)
    requires
        v.depth >= 1,
        v.history.len() == v.depth,
        !spec_restart_due(v),
    ensures
        ({
            let stepped = diis_spec_next(v, problem, state);
            let curr = problem.spec_update(state.input);
            stepped.2 is Ok ==> {
                &&& stepped.0.history.len() == v.depth
                &&& (forall|k: int|
                    0 <= k < v.depth - 1 ==> stepped.0.history[k] == v.history[k + 1])
                &&& stepped.0.history[v.depth - 1] == (curr, curr.spec_vsub(state.input))
            }
        }),
{
    let stepped = diis_spec_next(v, problem, state);
    let curr = problem.spec_update(state.input);
    let rv = curr.spec_vsub(state.input);
    if stepped.2 is Ok {
        let pushed = v.history.push((curr, rv));
        assert(stepped.0.history == pushed.remove(0));
        assert(pushed.remove(0).len() == v.depth);
        assert forall|k: int| 0 <= k < v.depth - 1 implies stepped.0.history[k] == v.history[
            k + 1
        ] by {
            assert(pushed.remove(0)[k] == pushed[k + 1]);
        }
        assert(pushed.remove(0)[v.depth - 1] == pushed[v.depth as int]);
    }
}

/// Filling-phase equivalence: while its window is still filling, a fresh
/// DIIS accelerator (no acceleration rounds taken yet) returns exactly
/// what plain linear damping with the same damping factor returns, and
/// advances the problem the same way.
pub proof fn lemma_filling_matches_linear<P: ConvProblem>(
    v: DIISView<P>,
    lm: LinearDamping<P::Elem>,
    problem: P,
    state: ConvState<P>,
)
    requires
        v.history.len() < v.depth,
        v.accel_steps == 0,
        lm.eta == v.eta,
    ensures
        diis_spec_next(v, problem, state).1 == linear_spec_next(lm, problem, state).1,
        diis_spec_next(v, problem, state).2 == linear_spec_next(lm, problem, state).2,
{
}

} // verus!
