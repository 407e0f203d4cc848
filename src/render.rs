//! Infix rendering of expressions. No parentheses are ever written, so a
//! compound subtree does not keep its grouping in the text: `(x+1)*2`
//! renders as `x+1*2`.
use vstd::prelude::*;
use crate::expression::Expression;

verus! {

/// The character of a decimal digit.
pub open spec fn digit_char(d: nat) -> char
    recommends
        d < 10,
{
    if d == 0 {
        '0'
    } else if d == 1 {
        '1'
    } else if d == 2 {
        '2'
    } else if d == 3 {
        '3'
    } else if d == 4 {
        '4'
    } else if d == 5 {
        '5'
    } else if d == 6 {
        '6'
    } else if d == 7 {
        '7'
    } else if d == 8 {
        '8'
    } else {
        '9'
    }
}

/// The decimal digits of `n`, most significant first, with no leading zero.
pub open spec fn digits(n: nat) -> Seq<char>
    decreases n,
{
    if n < 10 {
        seq![digit_char(n)]
    } else {
        digits(n / 10).push(digit_char(n % 10))
    }
}

/// `n` in decimal, with a leading `-` when it is negative.
pub open spec fn decimal(n: int) -> Seq<char> {
    if n < 0 {
        seq!['-'] + digits((-n) as nat)
    } else {
        digits(n as nat)
    }
}

/// The text of `e`: each binary node is its left text, its operator and its
/// right text, with no parentheses.
pub open spec fn rendered(e: Expression) -> Seq<char>
    decreases e,
{
    match e {
        Expression::Lit(v) => decimal(v as int),
        Expression::Var(c) => seq![c],
        Expression::Add(a, b) => rendered(*a) + seq!['+'] + rendered(*b),
        Expression::Sub(a, b) => rendered(*a) + seq!['-'] + rendered(*b),
        Expression::Mul(a, b) => rendered(*a) + seq!['*'] + rendered(*b),
        Expression::Div(a, b) => rendered(*a) + seq!['/'] + rendered(*b),
        Expression::SimpleExp(b, p) => rendered(*b) + seq!['^'] + decimal(p as int),
    }
}

/// Relies on `String::push`: appends one character.
#[verifier::external_body]
fn push_char(out: &mut String, c: char)
    ensures
        final(out)@ == old(out)@.push(c),
{
    out.push(c)
}

fn digit_of(d: u64) -> (c: char)
    requires
        d < 10,
    ensures
        c == digit_char(d as nat),
{
    match d {
        0 => '0',
        1 => '1',
        2 => '2',
        3 => '3',
        4 => '4',
        5 => '5',
        6 => '6',
        7 => '7',
        8 => '8',
        _ => '9',
    }
}

fn write_digits(out: &mut String, n: u64)
    ensures
        final(out)@ == old(out)@ + digits(n as nat),
    decreases n,
{
    if n >= 10 {
        write_digits(out, n / 10);
    }
    push_char(out, digit_of(n % 10));
    assert(final(out)@ =~= old(out)@ + digits(n as nat));
}

fn write_decimal(out: &mut String, v: i32)
    ensures
        final(out)@ == old(out)@ + decimal(v as int),
{
    if v < 0 {
        push_char(out, '-');
        let n: u64 = (-(v as i64)) as u64;
        write_digits(out, n);
        assert(final(out)@ =~= old(out)@ + decimal(v as int));
    } else {
        write_digits(out, v as u64);
    }
}

impl Expression {
    /// Appends the text of this expression to `out`.
    pub fn write_to(&self, out: &mut String)
        ensures
            final(out)@ == old(out)@ + rendered(*self),
        decreases self,
    {
        match self {
            Expression::Lit(v) => write_decimal(out, *v),
            Expression::Var(c) => push_char(out, *c),
            Expression::Add(a, b) => {
                a.write_to(out);
                push_char(out, '+');
                b.write_to(out);
            },
            Expression::Sub(a, b) => {
                a.write_to(out);
                push_char(out, '-');
                b.write_to(out);
            },
            Expression::Mul(a, b) => {
                a.write_to(out);
                push_char(out, '*');
                b.write_to(out);
            },
            Expression::Div(a, b) => {
                a.write_to(out);
                push_char(out, '/');
                b.write_to(out);
            },
            Expression::SimpleExp(b, p) => {
                b.write_to(out);
                push_char(out, '^');
                write_decimal(out, *p);
            },
        }
        assert(final(out)@ =~= old(out)@ + rendered(*self));
    }

    /// The text of this expression.
    pub fn render(&self) -> (r: String)
        ensures
            r@ == rendered(*self),
    {
        let mut out = String::new();
        self.write_to(&mut out);
        assert(out@ =~= rendered(*self));
        out
    }
}

} // verus!
