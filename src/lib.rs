//! A small symbolic differentiation engine: expression trees over integer
//! literals and single-character variables, smart constructors that drop
//! trivial identities as nodes are built, derivatives with respect to `x`,
//! and an infix renderer.
pub mod expression;
pub mod laws;
pub mod render;

pub use expression::Expression;
