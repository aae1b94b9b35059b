//! Ways to write an expression otherwise that leave it equivalent.

use vstd::prelude::*;

use crate::ast::{Expr, Operator};
use crate::equivalence;
use crate::text;

verus! {

/// The operands of a commutative operator can change places: `x + y` is
/// equivalent to `y + x`.
#[verifier::rlimit(3)]
pub proof fn operands_can_change_places(x: Box<Expr>, op: Operator, y: Box<Expr>)
    requires
        op.commutes(),
        equivalence::compare_exprs(*x, *x) == Some(true),
        equivalence::compare_exprs(*y, *y) == Some(true),
        equivalence::compare_exprs(*x, *y) is Some,
        equivalence::compare_exprs(*y, *x) is Some,
    ensures
        equivalence::compare_exprs(Expr::Binary(x, op, y), Expr::Binary(y, op, x)) == Some(true),
{
    let a = Expr::Binary(x, op, y);
    let b = Expr::Binary(y, op, x);
    assert(equivalence::compare_exprs(a, b) == equivalence::compare_bare_exprs(a, b));
}

/// The operands of any other operator cannot, unless they are equivalent to
/// each other: `x - y` is not equivalent to `y - x`.
#[verifier::rlimit(3)]
pub proof fn operands_keep_their_places(x: Box<Expr>, op: Operator, y: Box<Expr>)
    requires
        !op.commutes(),
        equivalence::compare_exprs(*x, *y) == Some(false),
    ensures
        equivalence::compare_exprs(Expr::Binary(x, op, y), Expr::Binary(y, op, x)) == Some(false),
{
    let a = Expr::Binary(x, op, y);
    let b = Expr::Binary(y, op, x);
    assert(equivalence::compare_exprs(a, b) == equivalence::compare_bare_exprs(a, b));
}

/// Parentheses around one expression do not count, on either side.
#[verifier::rlimit(3)]
pub proof fn parentheses_do_not_count(v: Vec<Expr>, e: Expr)
    requires
        v@.len() == 1,
        e !is Parenthesized,
    ensures
        equivalence::compare_exprs(Expr::Parenthesized(v), e) == equivalence::compare_exprs(
            v@[0],
            e,
        ),
        equivalence::compare_exprs(e, Expr::Parenthesized(v)) == equivalence::compare_exprs(
            v@[0],
            e,
        ),
{
}

/// Nor do they count around both.
#[verifier::rlimit(3)]
pub proof fn parentheses_around_both_do_not_count(v: Vec<Expr>, w: Vec<Expr>)
    requires
        v@.len() == 1,
        w@.len() == 1,
    ensures
        equivalence::compare_exprs(Expr::Parenthesized(v), Expr::Parenthesized(w))
            == equivalence::compare_exprs(v@[0], w@[0]),
{
    reveal_with_fuel(equivalence::compare_lists, 3);
    assert(equivalence::compare_lists(v@, w@, 1) == equivalence::compare_exprs(v@[0], w@[0]));
}

/// The case of a function's name does not matter: a call of `SUM` is equivalent
/// to whatever the same call of `sum` is.
#[verifier::rlimit(3)]
pub proof fn case_of_function_names_does_not_matter(a: Expr, b: Expr, e: Expr)
    requires
        same_call_but_for_case(a, b),
    ensures
        equivalence::compare_exprs(a, e) == equivalence::compare_exprs(b, e),
        equivalence::compare_exprs(e, a) == equivalence::compare_exprs(e, b),
    decreases e,
{
    if let Expr::Parenthesized(v) = e {
        if v@.len() == 1 {
            case_of_function_names_does_not_matter(a, b, v@[0]);
        }
    } else {
        assert(equivalence::compare_exprs(a, e) == equivalence::compare_bare_exprs(a, e));
        assert(equivalence::compare_exprs(b, e) == equivalence::compare_bare_exprs(b, e));
        assert(equivalence::compare_exprs(e, a) == equivalence::compare_bare_exprs(e, a));
        assert(equivalence::compare_exprs(e, b) == equivalence::compare_bare_exprs(e, b));
    }
}

/// Two calls of a function differ at most in the case of its name.
pub open spec fn same_call_but_for_case(a: Expr, b: Expr) -> bool {
    match a {
        Expr::FunctionCall {
            name: n1,
            distinctness: d1,
            args: a1,
            order_by: o1,
            filter_over: f1,
        } => match b {
            Expr::FunctionCall {
                name: n2,
                distinctness: d2,
                args: a2,
                order_by: o2,
                filter_over: f2,
            } => {
                &&& text::same_ignoring_case(n1.0@, n2.0@)
                &&& d1 == d2
                &&& a1 == a2
                &&& o1 == o2
                &&& f1 == f2
            },
            _ => false,
        },
        Expr::FunctionCallStar { name: n1, filter_over: f1 } => match b {
            Expr::FunctionCallStar { name: n2, filter_over: f2 } => {
                &&& text::same_ignoring_case(n1.0@, n2.0@)
                &&& f1 == f2
            },
            _ => false,
        },
        _ => false,
    }
}

} // verus!
