// An f64 backend for the convergence library, and the tests that drive it.

use convergence::diis::{bordered_matrix, diis_coefficients, DIIS};
use convergence::linear::LinearDamping;
use convergence::problem::{ConvError, ConvProblem, ConvState, TerminationReason};
use convergence::solver::{Converger, ConvSolution, Solver};
use convergence::types::{CoeffsView, ConvFloat, ConvVector, SystemView};

/// A scalar backed by `f64`.
#[derive(Clone, Copy, PartialEq, Debug)]
struct S64(f64);

/// A dense vector backed by `Vec<f64>`.
#[derive(Clone, PartialEq, Debug)]
struct V64(Vec<f64>);

/// Gaussian elimination with partial pivoting; reports `None` exactly when
/// some pivot column is exactly zero (the matrix is singular).
fn gauss_solve(a: &[Vec<f64>], b: &[f64]) -> Option<Vec<f64>> {
    let n = b.len();
    if a.len() != n {
        return None;
    }
    let mut m: Vec<Vec<f64>> = Vec::new();
    for (row, rhs) in a.iter().zip(b.iter()) {
        if row.len() != n {
            return None;
        }
        let mut r = row.clone();
        r.push(*rhs);
        m.push(r);
    }
    for col in 0..n {
        let mut best = col;
        for row in col + 1..n {
            if m[row][col].abs() > m[best][col].abs() {
                best = row;
            }
        }
        if m[best][col] == 0.0 {
            return None;
        }
        m.swap(col, best);
        for row in col + 1..n {
            let factor = m[row][col] / m[col][col];
            for k in col..n + 1 {
                m[row][k] -= factor * m[col][k];
            }
        }
    }
    let mut x = vec![0.0; n];
    for col in (0..n).rev() {
        let mut acc = m[col][n];
        for k in col + 1..n {
            acc -= m[col][k] * x[k];
        }
        x[col] = acc / m[col][col];
    }
    Some(x)
}

impl ConvFloat for S64 {
    // The spec_* items stand in for the trait's specification functions;
    // nothing calls them at run time.
    fn spec_zero() -> S64 {
        S64(0.0)
    }
    fn spec_one() -> S64 {
        S64(1.0)
    }
    fn spec_neg_one() -> S64 {
        S64(-1.0)
    }
    fn spec_inf() -> S64 {
        S64(f64::INFINITY)
    }
    fn spec_neg_inf() -> S64 {
        S64(f64::NEG_INFINITY)
    }
    fn spec_sub(self, other: S64) -> S64 {
        S64(self.0 - other.0)
    }
    fn spec_lt(self, other: S64) -> bool {
        self.0 < other.0
    }
    fn spec_solve(_sys: SystemView<S64>) -> Option<CoeffsView<S64>> {
        None
    }

    fn zero() -> S64 {
        S64(0.0)
    }
    fn one() -> S64 {
        S64(1.0)
    }
    fn neg_one() -> S64 {
        S64(-1.0)
    }
    fn infinity() -> S64 {
        S64(f64::INFINITY)
    }
    fn neg_infinity() -> S64 {
        S64(f64::NEG_INFINITY)
    }
    fn sub(&self, other: &S64) -> S64 {
        S64(self.0 - other.0)
    }
    fn lt(&self, other: &S64) -> bool {
        self.0 < other.0
    }
    fn solve_dense(a: &Vec<Vec<S64>>, b: &Vec<S64>) -> Option<Vec<S64>> {
        let rows: Vec<Vec<f64>> = a
            .iter()
            .map(|row| row.iter().map(|s| s.0).collect())
            .collect();
        let rhs: Vec<f64> = b.iter().map(|s| s.0).collect();
        gauss_solve(&rows, &rhs).map(|c| c.into_iter().map(S64).collect())
    }
}

impl ConvVector<S64> for V64 {
    // The spec_* items stand in for the trait's specification functions;
    // nothing calls them at run time.
    fn spec_vadd(self, other: V64) -> V64 {
        self.vadd(&other)
    }
    fn spec_vsub(self, other: V64) -> V64 {
        self.vsub(&other)
    }
    fn spec_scale(self, k: S64) -> V64 {
        self.scale(&k)
    }
    fn spec_dot(self, other: V64) -> S64 {
        self.dot(&other)
    }
    fn spec_l1_diff(self, other: V64) -> S64 {
        self.l1_diff(&other)
    }

    fn vclone(&self) -> V64 {
        self.clone()
    }
    fn vadd(&self, other: &V64) -> V64 {
        V64(self.0.iter().zip(other.0.iter()).map(|(x, y)| x + y).collect())
    }
    fn vsub(&self, other: &V64) -> V64 {
        V64(self.0.iter().zip(other.0.iter()).map(|(x, y)| x - y).collect())
    }
    fn scale(&self, k: &S64) -> V64 {
        V64(self.0.iter().map(|x| k.0 * x).collect())
    }
    fn dot(&self, other: &V64) -> S64 {
        S64(self.0.iter().zip(other.0.iter()).map(|(x, y)| x * y).sum())
    }
    fn l1_diff(&self, other: &V64) -> S64 {
        S64(self
            .0
            .iter()
            .zip(other.0.iter())
            .map(|(x, y)| (x - y).abs())
            .sum())
    }
}

/// The scalar golden-ratio fixed point: `update(x) = 1 + 1/x`.
struct GoldenProblem;

impl ConvProblem for GoldenProblem {
    type Elem = S64;
    type Vector = V64;

    // The spec_* items stand in for the trait's specification functions;
    // nothing calls them at run time.
    fn spec_update(self, input: V64) -> V64 {
        let mut p = self;
        p.update(&input)
    }
    fn post_update(self, _input: V64) -> Self {
        self
    }
    fn spec_residual(self, input: V64, output: V64) -> S64 {
        let mut p = self;
        p.residual(&input, &output)
    }
    fn post_residual(self, _input: V64, _output: V64) -> Self {
        self
    }

    fn update(&mut self, input: &V64) -> V64 {
        V64(vec![1.0 + 1.0 / input.0[0]])
    }

    fn residual(&mut self, input: &V64, output: &V64) -> S64 {
        S64(output.0.iter().zip(input.0.iter()).map(|(o, i)| o - i).sum::<f64>().abs())
    }
}

/// The coupled 2-vector system of the long-running scenario.
struct CoupledProblem {
    a: f64,
    b: f64,
}

impl ConvProblem for CoupledProblem {
    type Elem = S64;
    type Vector = V64;

    // The spec_* items stand in for the trait's specification functions;
    // nothing calls them at run time.
    fn spec_update(self, input: V64) -> V64 {
        let mut p = self;
        p.update(&input)
    }
    fn post_update(self, _input: V64) -> Self {
        self
    }
    fn spec_residual(self, input: V64, output: V64) -> S64 {
        let mut p = self;
        p.residual(&input, &output)
    }
    fn post_residual(self, _input: V64, _output: V64) -> Self {
        self
    }

    fn update(&mut self, input: &V64) -> V64 {
        let u0 = input.0[0];
        let u1 = input.0[1];
        let c = ((u0 + u1) / 2.0).cos();
        V64(vec![c * self.a, c + 1e-4 * (u0 * u0).sin() * self.b])
    }

    fn residual(&mut self, input: &V64, output: &V64) -> S64 {
        S64(output.0.iter().zip(input.0.iter()).map(|(o, i)| o - i).sum::<f64>().abs())
    }
}

/// A drift with a constant residual: `update(x) = x + 1`, so every entry
/// of the residual history is identical and the Gram block is singular.
struct ShiftProblem;

impl ConvProblem for ShiftProblem {
    type Elem = S64;
    type Vector = V64;

    // The spec_* items stand in for the trait's specification functions;
    // nothing calls them at run time.
    fn spec_update(self, input: V64) -> V64 {
        let mut p = self;
        p.update(&input)
    }
    fn post_update(self, _input: V64) -> Self {
        self
    }
    fn spec_residual(self, input: V64, output: V64) -> S64 {
        let mut p = self;
        p.residual(&input, &output)
    }
    fn post_residual(self, _input: V64, _output: V64) -> Self {
        self
    }

    fn update(&mut self, input: &V64) -> V64 {
        V64(input.0.iter().map(|x| x + 1.0).collect())
    }

    fn residual(&mut self, _input: &V64, _output: &V64) -> S64 {
        S64(1.0)
    }
}

#[test]
fn run_linear_test_problem() {
    let problem = CoupledProblem { a: 1.0, b: 1.0 };
    let mixer: DIIS<CoupledProblem> = DIIS::new(S64(0.87), 12, 10).unwrap();
    let solution = Solver::new(mixer, problem, V64(vec![0.5, 1.0]))
        .max_iters(50000)
        .tolerance(S64(1e-12))
        .unwrap()
        .run();
    match solution {
        Ok(s) => println!("\n{:?}\n", (s.solution, s.iterations, s.termination_reason)),
        Err(e) => println!("\n{:?}\n", e),
    }
}

#[test]
fn golden_ratio_converges() {
    let mixer: DIIS<GoldenProblem> = DIIS::new(S64(0.68), 8, 10).unwrap();
    let solution = Solver::new(mixer, GoldenProblem, V64(vec![1.0]))
        .max_iters(500)
        .tolerance(S64(1e-8))
        .unwrap()
        .run()
        .unwrap();
    assert!(matches!(solution.termination_reason, TerminationReason::ToleranceReached));
    assert!((solution.solution.0[0] - 1.61803398875).abs() < 1e-8);
}

#[test]
fn coupled_system_terminates() {
    let problem = CoupledProblem { a: 1.0, b: 1.0 };
    let mixer: DIIS<CoupledProblem> = DIIS::new(S64(0.87), 12, 10).unwrap();
    let solution = Solver::new(mixer, problem, V64(vec![0.5, 1.0]))
        .max_iters(50000)
        .tolerance(S64(1e-12))
        .unwrap()
        .run()
        .unwrap();
    assert!(solution.termination_reason.terminated());
    assert!(solution.solution.0.iter().all(|x| x.is_finite()));
    assert!(solution.solution.0.iter().all(|x| x.abs() < 1e6));
}

#[test]
fn repeated_runs_are_identical() {
    let run_once = || {
        let mixer: DIIS<GoldenProblem> = DIIS::new(S64(0.68), 8, 10).unwrap();
        Solver::new(mixer, GoldenProblem, V64(vec![1.0]))
            .max_iters(500)
            .tolerance(S64(1e-8))
            .unwrap()
            .run()
            .unwrap()
    };
    let first = run_once();
    let second = run_once();
    assert_eq!(first.solution, second.solution);
    assert_eq!(first.iterations, second.iterations);
    assert_eq!(first.termination_reason, second.termination_reason);
}

#[test]
fn linear_mixing_identity_at_full_eta() {
    let mut lm = LinearDamping::new(S64(1.0)).unwrap();
    let mut problem = GoldenProblem;
    let state: ConvState<GoldenProblem> = ConvState::new(V64(vec![2.0]));
    let out = lm.next_iter(&mut problem, &state).unwrap();
    let expected = GoldenProblem.update(&V64(vec![2.0]));
    assert_eq!(out, expected);
    assert_eq!(out, V64(vec![1.5]));
}

#[test]
fn filling_phase_equals_linear_mixing() {
    let mut diis: DIIS<GoldenProblem> = DIIS::new(S64(0.68), 3, 0).unwrap();
    let mut lm = LinearDamping::new(S64(0.68)).unwrap();
    let mut p1 = GoldenProblem;
    let mut p2 = GoldenProblem;
    let inputs = [1.0, 2.5, 0.7];
    for x in inputs {
        let state: ConvState<GoldenProblem> = ConvState::new(V64(vec![x]));
        let from_diis = diis.next_iter(&mut p1, &state).unwrap();
        let from_lm = lm.next_iter(&mut p2, &state).unwrap();
        assert_eq!(from_diis, from_lm);
    }
}

#[test]
fn history_is_bounded_fifo() {
    let mut diis: DIIS<GoldenProblem> = DIIS::new(S64(0.68), 2, 0).unwrap();
    let mut problem = GoldenProblem;
    let inputs = [1.0, 2.0, 3.0, 4.0, 5.0];
    let mut lens = Vec::new();
    for x in inputs {
        let state: ConvState<GoldenProblem> = ConvState::new(V64(vec![x]));
        let out = diis.next_iter(&mut problem, &state);
        assert!(out.is_ok());
        lens.push(diis.history_len());
    }
    assert_eq!(lens, vec![1, 2, 2, 2, 2]);
}

#[test]
fn bordered_matrix_is_symmetric_with_border() {
    let residuals = vec![
        V64(vec![1.0, 0.3]),
        V64(vec![0.5, -0.2]),
        V64(vec![0.1, 0.8]),
    ];
    let m = bordered_matrix::<S64, V64>(&residuals);
    let d = residuals.len();
    assert_eq!(m.len(), d + 1);
    for row in &m {
        assert_eq!(row.len(), d + 1);
    }
    for i in 0..d {
        for j in 0..d {
            assert_eq!(m[i][j], m[j][i]);
            assert_eq!(m[i][j], residuals[i].dot(&residuals[j]));
        }
        assert_eq!(m[i][d], S64(-1.0));
        assert_eq!(m[d][i], S64(-1.0));
    }
    assert_eq!(m[d][d], S64(0.0));
}

#[test]
fn coefficients_sum_to_one() {
    let residuals = vec![
        V64(vec![1.0, 0.3]),
        V64(vec![0.5, -0.2]),
        V64(vec![0.1, 0.8]),
    ];
    let c = diis_coefficients::<S64, V64>(&residuals).unwrap();
    assert_eq!(c.len(), residuals.len() + 1);
    let total: f64 = c[..residuals.len()].iter().map(|s| s.0).sum();
    assert!((total - 1.0).abs() < 1e-10);
}

#[test]
fn duplicate_residuals_report_numerical_error() {
    let residuals = vec![V64(vec![1.0, 2.0]), V64(vec![1.0, 2.0])];
    let r = diis_coefficients::<S64, V64>(&residuals);
    assert!(matches!(r, Err(ConvError::Numerical)));
}

#[test]
fn constant_residual_run_reports_numerical_error() {
    let mixer: DIIS<ShiftProblem> = DIIS::new(S64(0.5), 2, 0).unwrap();
    let outcome = Solver::new(mixer, ShiftProblem, V64(vec![0.0]))
        .max_iters(100)
        .run();
    assert!(matches!(outcome, Err(ConvError::Numerical)));
}

#[test]
fn configuration_errors_are_reported() {
    assert!(matches!(
        DIIS::<GoldenProblem>::new(S64(0.5), 0, 0),
        Err(ConvError::InvalidDepth)
    ));
    assert!(matches!(
        DIIS::<GoldenProblem>::new(S64(0.0), 4, 0),
        Err(ConvError::InvalidEta)
    ));
    assert!(matches!(
        DIIS::<GoldenProblem>::new(S64(1.5), 4, 0),
        Err(ConvError::InvalidEta)
    ));
    assert!(matches!(
        LinearDamping::<S64>::new(S64(-0.1)),
        Err(ConvError::InvalidEta)
    ));
    assert!(LinearDamping::<S64>::new(S64(1.0)).is_ok());
    let solver = Solver::new(
        LinearDamping::new(S64(0.5)).unwrap(),
        GoldenProblem,
        V64(vec![1.0]),
    );
    assert!(matches!(
        solver.tolerance(S64(0.0)),
        Err(ConvError::InvalidTolerance)
    ));
}

#[test]
fn max_iterations_bound_is_reported() {
    let lm = LinearDamping::new(S64(0.5)).unwrap();
    let solution = Solver::new(lm, GoldenProblem, V64(vec![1.0]))
        .max_iters(3)
        .run()
        .unwrap();
    assert_eq!(solution.iterations, 3);
    assert!(matches!(solution.termination_reason, TerminationReason::MaxIterReached));
}

#[test]
fn termination_reason_text_and_default() {
    assert_eq!(TerminationReason::NotTerminated.text(), "Not terminated");
    assert_eq!(
        TerminationReason::MaxIterReached.text(),
        "Maximum number of iterations reached"
    );
    assert_eq!(
        TerminationReason::ToleranceReached.text(),
        "Target tolerance reached"
    );
    assert!(!TerminationReason::NotTerminated.terminated());
    assert!(TerminationReason::MaxIterReached.terminated());
    assert!(TerminationReason::ToleranceReached.terminated());
    assert!(matches!(
        TerminationReason::default(),
        TerminationReason::NotTerminated
    ));
}

#[test]
fn solution_constructor_keeps_fields() {
    let s: ConvSolution<GoldenProblem> = ConvSolution::new(V64(vec![1.0, 2.0]), 7);
    assert_eq!(s.solution, V64(vec![1.0, 2.0]));
    assert_eq!(s.iterations, 7);
    assert!(matches!(s.termination_reason, TerminationReason::NotTerminated));
}
