use sdiff::Expression;
use std::rc::Rc;

fn text(e: &Rc<Expression>) -> String {
    (**e).render()
}

fn derivative_text(e: &Rc<Expression>) -> String {
    text(&(**e).differentiate())
}

#[test]
fn literal_derivatives_render_zero() {
    for n in [0, 1, -1, 7, -42, i32::MAX, i32::MIN] {
        assert_eq!(derivative_text(&Expression::lit(n)), "0");
    }
}

#[test]
fn other_variables_have_zero_derivative() {
    for c in ['y', 'z', 'X', 'a'] {
        assert_eq!(derivative_text(&Expression::var(c)), "0");
    }
    assert_eq!(derivative_text(&Expression::var('x')), "1");
}

#[test]
fn add_zero_returns_the_same_node() {
    let e = Expression::mul(Expression::var('x'), Expression::var('y'));
    let left = Expression::add(Expression::lit(0), e.clone());
    let right = Expression::add(e.clone(), Expression::lit(0));
    assert!(Rc::ptr_eq(&left, &e));
    assert!(Rc::ptr_eq(&right, &e));
}

#[test]
fn multiply_by_one_returns_the_same_node() {
    let e = Expression::add(Expression::var('x'), Expression::lit(5));
    let left = Expression::mul(Expression::lit(1), e.clone());
    let right = Expression::mul(e.clone(), Expression::lit(1));
    assert!(Rc::ptr_eq(&left, &e));
    assert!(Rc::ptr_eq(&right, &e));
}

#[test]
fn multiply_by_zero_returns_the_zero_operand() {
    let e = Expression::var('x');
    let zero = Expression::lit(0);
    let left = Expression::mul(zero.clone(), e.clone());
    let right = Expression::mul(e.clone(), zero.clone());
    assert!(Rc::ptr_eq(&left, &zero));
    assert!(Rc::ptr_eq(&right, &zero));
}

#[test]
fn multiply_checks_left_zero_before_right_one() {
    let zero = Expression::lit(0);
    let one = Expression::lit(1);
    let r = Expression::mul(zero.clone(), one.clone());
    assert!(Rc::ptr_eq(&r, &zero));
    let r = Expression::mul(one.clone(), zero.clone());
    assert!(Rc::ptr_eq(&r, &zero));
}

#[test]
fn add_without_zero_builds_a_node() {
    let e = Expression::add(Expression::var('x'), Expression::lit(2));
    assert!(matches!(*e, Expression::Add(_, _)));
    assert_eq!(text(&e), "x+2");
}

#[test]
fn subtract_and_divide_never_simplify() {
    let s = Expression::sub(Expression::var('x'), Expression::lit(0));
    assert_eq!(text(&s), "x-0");
    let d = Expression::div(Expression::lit(1), Expression::lit(0));
    assert_eq!(text(&d), "1/0");
}

#[test]
fn power_keeps_exponents_zero_and_one() {
    assert_eq!(text(&Expression::exp(Expression::var('x'), Expression::lit(0))), "x^0");
    assert_eq!(text(&Expression::exp(Expression::var('x'), Expression::lit(1))), "x^1");
}

#[test]
fn rendering_inserts_no_parentheses() {
    let e = Expression::mul(
        Expression::add(Expression::var('x'), Expression::lit(1)),
        Expression::lit(2),
    );
    assert_eq!(text(&e), "x+1*2");
}

#[test]
fn negative_literals_render_with_a_sign() {
    assert_eq!(text(&Expression::lit(-120)), "-120");
    assert_eq!(text(&Expression::lit(i32::MIN)), "-2147483648");
    assert_eq!(text(&Expression::lit(i32::MAX)), "2147483647");
    assert_eq!(text(&Expression::lit(0)), "0");
}

#[test]
fn sum_rule() {
    let e = Expression::add(Expression::var('x'), Expression::var('x'));
    assert_eq!(derivative_text(&e), "1+1");
}

#[test]
fn difference_rule_keeps_zero_terms() {
    let e = Expression::sub(Expression::var('x'), Expression::lit(4));
    assert_eq!(derivative_text(&e), "1-0");
}

#[test]
fn quotient_rule() {
    let e = Expression::div(Expression::var('x'), Expression::var('y'));
    assert_eq!(derivative_text(&e), "y-0/y^2");
}

#[test]
fn power_rule_with_compound_base() {
    let base = Expression::mul(Expression::lit(2), Expression::var('x'));
    let e = Expression::exp(base, Expression::lit(3));
    assert_eq!(derivative_text(&e), "3*2*x^2*2");
}

#[test]
fn power_rule_with_negative_exponent() {
    let e = Expression::exp(Expression::var('x'), Expression::lit(-1));
    assert_eq!(derivative_text(&e), "-1*x^-2");
}
