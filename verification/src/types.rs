use vstd::prelude::*;

verus! {

/// Requirements on the scalar element type of a problem's vectors.
///
/// The solver core is written against this capability interface so that a
/// numeric backend (the element type together with its arithmetic and its
/// dense linear solve) can be substituted without touching the verified
/// algorithm. Every operation must be deterministic: calling it twice on
/// equal values must give equal results. Each executable method is pinned
/// to its own specification-level mirror, so the behaviour of the verified
/// core is a mathematical function of the backend's operations.
pub trait ConvFloat: Sized {
    /// The additive identity of the backend.
    spec fn spec_zero() -> Self;

    /// The multiplicative identity of the backend.
    spec fn spec_one() -> Self;

    /// The negation of the multiplicative identity.
    spec fn spec_neg_one() -> Self;

    /// A value above every finite value (the initial cost sentinel).
    spec fn spec_inf() -> Self;

    /// A value below every value; `spec_lt(x, spec_neg_inf())` never holds,
    /// so it serves as the "never satisfied" default tolerance.
    spec fn spec_neg_inf() -> Self;

    /// The difference `self - other`.
    spec fn spec_sub(self, other: Self) -> Self;

    /// The strict order `self < other`. Not required to be total:
    /// a backend with unordered values (such as a float NaN) answers
    /// `false` on them, which the core treats as "not below".
    spec fn spec_lt(self, other: Self) -> bool;

    /// The backend's dense linear solve on a square system: `None` when
    /// the backend reports the matrix singular (or the solve otherwise
    /// fails), `Some(c)` with `matrix * c = rhs` up to the backend's
    /// rounding otherwise.
    spec fn spec_solve(sys: SystemView<Self>) -> Option<CoeffsView<Self>>;

    /// Returns the additive identity.
    fn zero() -> (r: Self)
        ensures
            r == Self::spec_zero(),
    ;

    /// Returns the multiplicative identity.
    fn one() -> (r: Self)
        ensures
            r == Self::spec_one(),
    ;

    /// Returns the negation of the multiplicative identity.
    fn neg_one() -> (r: Self)
        ensures
            r == Self::spec_neg_one(),
    ;

    /// Returns the upper sentinel (an "infinite" cost).
    fn infinity() -> (r: Self)
        ensures
            r == Self::spec_inf(),
    ;

    /// Returns the lower sentinel (a "never satisfied" tolerance).
    fn neg_infinity() -> (r: Self)
        ensures
            r == Self::spec_neg_inf(),
    ;

    /// Computes `self - other`.
    fn sub(&self, other: &Self) -> (r: Self)
        ensures
            r == self.spec_sub(*other),
    ;

    /// Decides `self < other`.
    fn lt(&self, other: &Self) -> (r: bool)
        ensures
            r == self.spec_lt(*other),
    ;

    /// Solves the square dense system `a c = b` with a general solver
    /// (no definiteness assumed), reporting failure as `None`.
    fn solve_dense(a: &Vec<Vec<Self>>, b: &Vec<Self>) -> (r: Option<Vec<Self>>)
        ensures
            match r {
                Some(c) => Self::spec_solve(
                    (SystemView { matrix: mat_view(a@), rhs: b@ }),
                ) == Some(CoeffsView { coeffs: c@ }) && c@.len() == b@.len(),
                None => Self::spec_solve((SystemView { matrix: mat_view(a@), rhs: b@ })) is None,
            },
    ;
}

/// Requirements on the vector type that iterates and residuals live in:
/// a dense numeric container of `S` elements of some fixed length per
/// problem instance. As with `ConvFloat`, every operation must be a
/// deterministic function of its arguments, and each executable method is
/// pinned to a specification-level mirror.
pub trait ConvVector<S: ConvFloat>: Sized {
    /// Elementwise sum `self + other`.
    spec fn spec_vadd(self, other: Self) -> Self;

    /// Elementwise difference `self - other`.
    spec fn spec_vsub(self, other: Self) -> Self;

    /// The scaled vector `k * self`.
    spec fn spec_scale(self, k: S) -> Self;

    /// The dot product of `self` and `other`.
    spec fn spec_dot(self, other: Self) -> S;

    /// The stopping metric: the sum of the elementwise absolute
    /// differences of `self` and `other` (not a true norm).
    spec fn spec_l1_diff(self, other: Self) -> S;

    /// Returns a deep copy of the vector.
    fn vclone(&self) -> (r: Self)
        ensures
            r == *self,
    ;

    /// Computes the elementwise sum.
    fn vadd(&self, other: &Self) -> (r: Self)
        ensures
            r == self.spec_vadd(*other),
    ;

    /// Computes the elementwise difference.
    fn vsub(&self, other: &Self) -> (r: Self)
        ensures
            r == self.spec_vsub(*other),
    ;

    /// Computes the scaled vector `k * self`.
    fn scale(&self, k: &S) -> (r: Self)
        ensures
            r == self.spec_scale(*k),
    ;

    /// Computes the dot product.
    fn dot(&self, other: &Self) -> (r: S)
        ensures
            r == self.spec_dot(*other),
    ;

    /// Computes the stopping metric `sum_i |self_i - other_i|`.
    fn l1_diff(&self, other: &Self) -> (r: S)
        ensures
            r == self.spec_l1_diff(*other),
    ;
}

/// A dense square linear system, as the specifications see it: a matrix,
/// row by row, with its right-hand side.
#[verifier::ext_equal]
pub struct SystemView<S> {
    /// The matrix, row by row.
    pub matrix: Seq<Seq<S>>,
    /// The right-hand side.
    pub rhs: Seq<S>,
}

/// A solved coefficient vector, as the specifications see it.
#[verifier::ext_equal]
pub struct CoeffsView<S> {
    /// The coefficients.
    pub coeffs: Seq<S>,
}

/// The matrix a nested vector holds, row by row.
pub open spec fn mat_view<S>(a: Seq<Vec<S>>) -> Seq<Seq<S>> {
    a.map_values(|row: Vec<S>| row@)
}

/// Whether a damping factor lies in the half-open interval (0, 1].
pub open spec fn spec_eta_valid<S: ConvFloat>(eta: S) -> bool {
    S::spec_zero().spec_lt(eta) && !S::spec_one().spec_lt(eta)
}

/// The damped blend `eta * curr + (1 - eta) * prev` of an old iterate and
/// a newly computed one.
pub open spec fn spec_mix<S: ConvFloat, V: ConvVector<S>>(eta: S, prev: V, curr: V) -> V {
    curr.spec_scale(eta).spec_vadd(prev.spec_scale(S::spec_one().spec_sub(eta)))
}

/// Computes the damped blend `eta * curr + (1 - eta) * prev`.
pub fn linear_mix<S: ConvFloat, V: ConvVector<S>>(eta: &S, prev: &V, curr: &V) -> (r: V)
    ensures
        r == spec_mix(*eta, *prev, *curr),
{
    let one = S::one();
    let complement = one.sub(eta);
    curr.scale(eta).vadd(&prev.scale(&complement))
}

} // verus!
