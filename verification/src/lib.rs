//! Acceleration of fixed-point iterations `x_{k+1} = f(x_k)`.
//!
//! A caller supplies the update map as a [`problem::ConvProblem`] over a
//! numeric backend of its choice (see [`types::ConvFloat`] and
//! [`types::ConvVector`]); a [`solver::Solver`] drives the iteration with a
//! chosen [`solver::Converger`] — plain damping ([`linear::LinearDamping`])
//! or DIIS acceleration ([`diis::DIIS`]) — until a tolerance or an
//! iteration bound is reached.
//!
//! Everything proved here is relative to the backend meeting the contracts
//! stated on the two capability traits: the backend's operations must be
//! deterministic functions of their arguments, and its dense solve must
//! report failure as `None`. The verified core never panics and pins every
//! result down to a specification-level function of its inputs.

pub mod problem;
pub mod diis;
pub mod linear;
pub mod solver;
pub mod types;
