//! The expression tree, its smart constructors and its derivative.
use vstd::prelude::*;
use std::rc::Rc;

verus! {

/// An arithmetic expression. Subtrees are shared through `Rc` and never
/// mutated after construction.
pub enum Expression {
    Lit(i32),
    Var(char),
    Add(Rc<Expression>, Rc<Expression>),
    Sub(Rc<Expression>, Rc<Expression>),
    Mul(Rc<Expression>, Rc<Expression>),
    Div(Rc<Expression>, Rc<Expression>),
    /// A base raised to a literal integer exponent.
    SimpleExp(Rc<Expression>, i32),
}

/// The variable that derivatives are taken with respect to.
pub const DIFF_VAR: char = 'x';

/// What `Expression::add` builds: `0 + e` and `e + 0` are `e`.
pub open spec fn sum_of(l: Expression, r: Expression) -> Expression {
    if l == Expression::Lit(0) {
        r
    } else if r == Expression::Lit(0) {
        l
    } else {
        Expression::Add(Rc::new(l), Rc::new(r))
    }
}

/// What `Expression::sub` builds: always a new difference node.
pub open spec fn difference_of(l: Expression, r: Expression) -> Expression {
    Expression::Sub(Rc::new(l), Rc::new(r))
}

/// What `Expression::mul` builds. The rules are tried in order: a zero left
/// operand is returned, a one on the left yields the right operand, a zero
/// right operand is returned, a one on the right yields the left operand.
pub open spec fn product_of(l: Expression, r: Expression) -> Expression {
    if l == Expression::Lit(0) {
        l
    } else if l == Expression::Lit(1) {
        r
    } else if r == Expression::Lit(0) {
        r
    } else if r == Expression::Lit(1) {
        l
    } else {
        Expression::Mul(Rc::new(l), Rc::new(r))
    }
}

/// What `Expression::div` builds: always a new quotient node.
pub open spec fn quotient_of(l: Expression, r: Expression) -> Expression {
    Expression::Div(Rc::new(l), Rc::new(r))
}

/// What `Expression::exp` builds: a power node, with no special exponents.
pub open spec fn power_of(base: Expression, p: i32) -> Expression {
    Expression::SimpleExp(Rc::new(base), p)
}

/// Every exponent in `e` can be decremented within `i32`, as the power rule
/// needs.
pub open spec fn exponents_in_range(e: Expression) -> bool
    decreases e,
{
    match e {
        Expression::Lit(_) => true,
        Expression::Var(_) => true,
        Expression::Add(a, b) => exponents_in_range(*a) && exponents_in_range(*b),
        Expression::Sub(a, b) => exponents_in_range(*a) && exponents_in_range(*b),
        Expression::Mul(a, b) => exponents_in_range(*a) && exponents_in_range(*b),
        Expression::Div(a, b) => exponents_in_range(*a) && exponents_in_range(*b),
        Expression::SimpleExp(b, p) => p > i32::MIN && exponents_in_range(*b),
    }
}

/// The derivative of `e` with respect to `x`, every node of it built by the
/// smart constructors.
pub open spec fn derivative(e: Expression) -> Expression
    decreases e,
{
    match e {
        Expression::Lit(_) => Expression::Lit(0),
        Expression::Var(c) => if c == DIFF_VAR {
            Expression::Lit(1)
        } else {
            Expression::Lit(0)
        },
        Expression::Add(a, b) => sum_of(derivative(*a), derivative(*b)),
        Expression::Sub(a, b) => difference_of(derivative(*a), derivative(*b)),
        Expression::Mul(a, b) => sum_of(
            product_of(*a, derivative(*b)),
            product_of(*b, derivative(*a)),
        ),
        Expression::Div(a, b) => quotient_of(
            difference_of(product_of(*b, derivative(*a)), product_of(*a, derivative(*b))),
            power_of(*b, 2),
        ),
        Expression::SimpleExp(b, p) => product_of(
            product_of(Expression::Lit(p), power_of(*b, (p - 1) as i32)),
            derivative(*b),
        ),
    }
}

impl Expression {
    /// Whether this node is the literal `v`.
    fn is_lit(&self, v: i32) -> (r: bool)
        ensures
            r == (*self == Expression::Lit(v)),
    {
        match self {
            Expression::Lit(w) => *w == v,
            _ => false,
        }
    }

    /// A literal leaf.
    pub fn lit(val: i32) -> (r: Rc<Expression>)
        ensures
            *r == Expression::Lit(val),
            exponents_in_range(*r),
    {
        Rc::new(Expression::Lit(val))
    }

    /// A variable leaf.
    pub fn var(name: char) -> (r: Rc<Expression>)
        ensures
            *r == Expression::Var(name),
            exponents_in_range(*r),
    {
        Rc::new(Expression::Var(name))
    }

    /// `lhs + rhs`, returning an operand unchanged when the other is the literal 0.
    pub fn add(lhs: Rc<Expression>, rhs: Rc<Expression>) -> (r: Rc<Expression>)
        ensures
            *r == sum_of(*lhs, *rhs),
            exponents_in_range(*lhs) && exponents_in_range(*rhs) ==> exponents_in_range(*r),
    {
        if lhs.is_lit(0) {
            rhs
        } else if rhs.is_lit(0) {
            lhs
        } else {
            Rc::new(Expression::Add(lhs, rhs))
        }
    }

    /// `lhs - rhs`, with no simplification.
    pub fn sub(lhs: Rc<Expression>, rhs: Rc<Expression>) -> (r: Rc<Expression>)
        ensures
            *r == difference_of(*lhs, *rhs),
            exponents_in_range(*lhs) && exponents_in_range(*rhs) ==> exponents_in_range(*r),
    {
        Rc::new(Expression::Sub(lhs, rhs))
    }

    /// `lhs * rhs`, returning an operand unchanged when either is the literal 0 or 1.
    pub fn mul(lhs: Rc<Expression>, rhs: Rc<Expression>) -> (r: Rc<Expression>)
        ensures
            *r == product_of(*lhs, *rhs),
            exponents_in_range(*lhs) && exponents_in_range(*rhs) ==> exponents_in_range(*r),
    {
        if lhs.is_lit(0) {
            lhs
        } else if lhs.is_lit(1) {
            rhs
        } else if rhs.is_lit(0) {
            rhs
        } else if rhs.is_lit(1) {
            lhs
        } else {
            Rc::new(Expression::Mul(lhs, rhs))
        }
    }

    /// `lhs / rhs`, with no simplification and no check of the divisor.
    pub fn div(lhs: Rc<Expression>, rhs: Rc<Expression>) -> (r: Rc<Expression>)
        ensures
            *r == quotient_of(*lhs, *rhs),
            exponents_in_range(*lhs) && exponents_in_range(*rhs) ==> exponents_in_range(*r),
    {
        Rc::new(Expression::Div(lhs, rhs))
    }

    /// Raises `base` to `power`, which must be a literal.
    pub fn exp(base: Rc<Expression>, power: Rc<Expression>) -> (r: Rc<Expression>)
        requires
            *power is Lit,
        ensures
            *r == power_of(*base, (*power)->Lit_0),
            exponents_in_range(*base) && (*power)->Lit_0 > i32::MIN ==> exponents_in_range(*r),
    {
        match &*power {
            Expression::Lit(p) => Rc::new(Expression::SimpleExp(base, *p)),
            _ => vstd::pervasive::unreached(),
        }
    }

    /// The derivative of this expression with respect to `x`.
    pub fn differentiate(&self) -> (r: Rc<Expression>)
        requires
            exponents_in_range(*self),
        ensures
            *r == derivative(*self),
        decreases self,
    {
        match self {
            Expression::Lit(_) => Expression::lit(0),
            Expression::Var(c) => {
                if *c == DIFF_VAR {
                    Expression::lit(1)
                } else {
                    Expression::lit(0)
                }
            },
            Expression::Add(a, b) => Expression::add(a.differentiate(), b.differentiate()),
            Expression::Sub(a, b) => Expression::sub(a.differentiate(), b.differentiate()),
            Expression::Mul(a, b) => {
                let lhs = Expression::mul(a.clone(), b.differentiate());
                let rhs = Expression::mul(b.clone(), a.differentiate());
                Expression::add(lhs, rhs)
            },
            Expression::Div(a, b) => {
                Expression::div(
                    Expression::sub(
                        Expression::mul(b.clone(), a.differentiate()),
                        Expression::mul(a.clone(), b.differentiate()),
                    ),
                    Expression::exp(b.clone(), Expression::lit(2)),
                )
            },
            Expression::SimpleExp(b, p) => {
                Expression::mul(
                    Expression::mul(
                        Expression::lit(*p),
                        Expression::exp(b.clone(), Expression::lit(*p - 1)),
                    ),
                    b.differentiate(),
                )
            },
        }
    }
}

} // verus!
