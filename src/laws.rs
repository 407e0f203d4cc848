//! Laws that relate the constructors, the derivative and the renderer.
use vstd::prelude::*;
use crate::expression::{Expression, sum_of, product_of, derivative, exponents_in_range};
use crate::render::rendered;

verus! {

/// The derivative of any integer literal renders as `0`.
pub proof fn lemma_literal_derivative_renders_zero(n: i32)
    ensures
        exponents_in_range(Expression::Lit(n)),
        rendered(derivative(Expression::Lit(n))) == seq!['0'],
{
}

/// The derivative of the variable `x` renders as `1`, and that of any other
/// variable renders as `0`.
pub proof fn lemma_variable_derivative_renders(c: char)
    ensures
        exponents_in_range(Expression::Var(c)),
        c == 'x' ==> rendered(derivative(Expression::Var(c))) == seq!['1'],
        c != 'x' ==> rendered(derivative(Expression::Var(c))) == seq!['0'],
{
}

/// Adding the literal zero on either side gives back the other operand;
/// multiplying by the literal one on either side gives back the other
/// operand; multiplying by the literal zero on either side gives the zero
/// operand.
pub proof fn lemma_identity_simplification(e: Expression)
    ensures
        sum_of(Expression::Lit(0), e) == e,
        sum_of(e, Expression::Lit(0)) == e,
        product_of(Expression::Lit(1), e) == e,
        product_of(e, Expression::Lit(1)) == e,
        product_of(Expression::Lit(0), e) == Expression::Lit(0),
        product_of(e, Expression::Lit(0)) == Expression::Lit(0),
{
}

} // verus!
