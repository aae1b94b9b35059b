//! Equivalence of expressions: the same meaning, though written otherwise.

use vstd::prelude::*;
use vstd::string::*;

use crate::ast::{Expr, Literal, Number, Type};
use crate::double;
use crate::ident;
use crate::outcome;
use crate::same;
use crate::text;

verus! {

/// Two numeric literals stand for the same number or, where one of them
/// stands for none, are written alike.
pub open spec fn same_number(a: Number, b: Number) -> bool {
    match (a.value, b.value) {
        (Some(x), Some(y)) => double::equal(x, y),
        _ => a.text@ == b.text@,
    }
}

/// What comparing two literals gives.
pub open spec fn compare_literals(a: Literal, b: Literal) -> Option<bool> {
    match (a, b) {
        (Literal::Numeric(x), Literal::Numeric(y)) => Some(same_number(x, y)),
        (Literal::String(x), Literal::String(y)) => ident::compare_idents(x@, y@),
        (Literal::Blob(x), Literal::Blob(y)) => Some(x@ == y@),
        (Literal::Keyword(x), Literal::Keyword(y)) => ident::compare_idents(x@, y@),
        (Literal::Null, Literal::Null) => Some(true),
        (Literal::CurrentDate, Literal::CurrentDate) => Some(true),
        (Literal::CurrentTime, Literal::CurrentTime) => Some(true),
        (Literal::CurrentTimestamp, Literal::CurrentTimestamp) => Some(true),
        _ => Some(false),
    }
}

/// How many expressions `e` is made of, itself among them, as far as
/// `compare_exprs` looks into it.
pub open spec fn size(e: Expr) -> nat
    decreases e, 0nat,
{
    match e {
        Expr::Between { lhs, start, end, .. } => 1 + size(*lhs) + size(*start) + size(*end),
        Expr::Binary(lhs, _, rhs) => 1 + size(*lhs) + size(*rhs),
        Expr::Case { when_then_pairs, .. } => 1 + size_of_pairs(
            when_then_pairs@,
            when_then_pairs@.len(),
        ),
        Expr::Cast { expr, .. } => 1 + size(*expr),
        Expr::Collate(expr, _) => 1 + size(*expr),
        Expr::FunctionCallStar { filter_over: Some(tail), .. } => 1 + match tail.filter_clause {
            Some(filter) => size(*filter),
            None => 0,
        },
        Expr::IsNull(expr) => 1 + size(*expr),
        Expr::NotNull(expr) => 1 + size(*expr),
        Expr::Unary(_, expr) => 1 + size(*expr),
        Expr::Parenthesized(exprs) => 1 + size_of_list(exprs@, exprs@.len()),
        Expr::InList { lhs, rhs: Some(list), .. } => 1 + size(*lhs) + size_of_list(
            list@,
            list@.len(),
        ),
        Expr::InList { lhs, .. } => 1 + size(*lhs),
        _ => 1,
    }
}

/// How many expressions the first `n` of a list are made of.
pub open spec fn size_of_list(s: Seq<Expr>, n: nat) -> nat
    decreases s, n,
{
    if n == 0 || n > s.len() {
        0
    } else {
        size_of_list(s, (n - 1) as nat) + size(s[n - 1])
    }
}

/// How many expressions the first `n` pairs of a list are made of.
pub open spec fn size_of_pairs(s: Seq<(Expr, Expr)>, n: nat) -> nat
    decreases s, n,
{
    if n == 0 || n > s.len() {
        0
    } else {
        size_of_pairs(s, (n - 1) as nat) + size(s[n - 1].0) + size(s[n - 1].1)
    }
}

/// What comparing the types of two casts gives: a type is known by its name, and
/// two casts may both have none.
pub open spec fn same_target(a: Option<Type>, b: Option<Type>) -> bool {
    match (a, b) {
        (None, None) => true,
        (Some(x), Some(y)) => text::same_ignoring_case(x.name@, y.name@),
        _ => false,
    }
}

/// What comparing two expressions for equivalence gives. Parentheses around
/// one expression do not count.
pub open spec fn compare_exprs(a: Expr, b: Expr) -> Option<bool>
    decreases size(a) + size(b), 1nat,
{
    match a {
        Expr::Parenthesized(v1) => match b {
            Expr::Parenthesized(v2) => if v1@.len() == v2@.len() {
                compare_lists(v1@, v2@, v1@.len())
            } else {
                Some(false)
            },
            _ => if v1@.len() == 1 {
                proof {
                    lemma_size_of_one(v1@);
                }
                compare_exprs(v1@[0], b)
            } else {
                Some(false)
            },
        },
        _ => match b {
            Expr::Parenthesized(v2) => if v2@.len() == 1 {
                proof {
                    lemma_size_of_one(v2@);
                }
                compare_exprs(v2@[0], a)
            } else {
                Some(false)
            },
            _ => compare_bare_exprs(a, b),
        },
    }
}

/// What comparing two expressions for equivalence gives, neither of which is
/// in parentheses.
pub open spec fn compare_bare_exprs(a: Expr, b: Expr) -> Option<bool>
    decreases size(a) + size(b), 0nat,
{
    match a {
        Expr::Between { lhs: l1, not: n1, start: s1, end: e1 } => match b {
            Expr::Between { lhs: l2, not: n2, start: s2, end: e2 } => outcome::both(
                Some(n1 == n2),
                outcome::both(
                    outcome::both(compare_exprs(*l1, *l2), compare_exprs(*s1, *s2)),
                    compare_exprs(*e1, *e2),
                ),
            ),
            _ => Some(false),
        },
        Expr::Binary(l1, o1, r1) => match b {
            Expr::Binary(l2, o2, r2) => outcome::both(
                Some(o1 == o2),
                outcome::either(
                    outcome::both(compare_exprs(*l1, *l2), compare_exprs(*r1, *r2)),
                    outcome::both(
                        Some(o1.commutes()),
                        outcome::both(compare_exprs(*l1, *r2), compare_exprs(*r1, *l2)),
                    ),
                ),
            ),
            _ => Some(false),
        },
        Expr::Case { base: b1, when_then_pairs: p1, else_expr: e1 } => match b {
            Expr::Case { base: b2, when_then_pairs: p2, else_expr: e2 } => outcome::both(
                outcome::both(
                    same::same_opt_expr(b1, b2),
                    if p1@.len() == p2@.len() {
                        compare_pairs(p1@, p2@, p1@.len())
                    } else {
                        Some(false)
                    },
                ),
                same::same_opt_expr(e1, e2),
            ),
            _ => Some(false),
        },
        Expr::Cast { expr: x1, target: t1 } => match b {
            Expr::Cast { expr: x2, target: t2 } => outcome::both(
                compare_exprs(*x1, *x2),
                Some(same_target(t1, t2)),
            ),
            _ => Some(false),
        },
        Expr::Collate(x1, c1) => match b {
            Expr::Collate(x2, c2) => outcome::both(
                compare_exprs(*x1, *x2),
                Some(text::same_ignoring_case(c1@, c2@)),
            ),
            _ => Some(false),
        },
        Expr::FunctionCall {
            name: n1,
            distinctness: d1,
            args: a1,
            order_by: o1,
            filter_over: f1,
        } => match b {
            Expr::FunctionCall {
                name: n2,
                distinctness: d2,
                args: a2,
                order_by: o2,
                filter_over: f2,
            } => outcome::both(
                outcome::both(
                    outcome::both(
                        Some(text::same_ignoring_case(n1.0@, n2.0@) && d1 == d2),
                        same::same_opt_exprs(a1, a2),
                    ),
                    same::same_opt_sorted(o1, o2),
                ),
                same::same_opt_tail(f1, f2),
            ),
            _ => Some(false),
        },
        Expr::FunctionCallStar { name: n1, filter_over: f1 } => match b {
            Expr::FunctionCallStar { name: n2, filter_over: f2 } => outcome::both(
                Some(text::same_ignoring_case(n1.0@, n2.0@)),
                match (f1, f2) {
                    (None, None) => Some(true),
                    (Some(t1), Some(t2)) => outcome::both(
                        match (t1.filter_clause, t2.filter_clause) {
                            (None, None) => Some(true),
                            (Some(c1), Some(c2)) => compare_exprs(*c1, *c2),
                            _ => Some(false),
                        },
                        same::same_opt_over(t1.over_clause, t2.over_clause),
                    ),
                    _ => Some(false),
                },
            ),
            _ => Some(false),
        },
        Expr::NotNull(x1) => match b {
            Expr::NotNull(x2) => compare_exprs(*x1, *x2),
            _ => Some(false),
        },
        Expr::IsNull(x1) => match b {
            Expr::IsNull(x2) => compare_exprs(*x1, *x2),
            _ => Some(false),
        },
        Expr::Literal(l1) => match b {
            Expr::Literal(l2) => compare_literals(l1, l2),
            _ => Some(false),
        },
        Expr::Id(i1) => match b {
            Expr::Id(i2) => ident::compare_idents(i1.0@, i2.0@),
            _ => Some(false),
        },
        Expr::Unary(o1, x1) => match b {
            Expr::Unary(o2, x2) => outcome::both(Some(o1 == o2), compare_exprs(*x1, *x2)),
            _ => Some(false),
        },
        Expr::Qualified(t1, c1) => match b {
            Expr::Qualified(t2, c2) => outcome::both(
                ident::compare_idents(t1.0@, t2.0@),
                ident::compare_idents(c1.0@, c2.0@),
            ),
            _ => Some(false),
        },
        Expr::DoublyQualified(s1, t1, c1) => match b {
            Expr::DoublyQualified(s2, t2, c2) => outcome::both(
                outcome::both(
                    ident::compare_idents(s1.0@, s2.0@),
                    ident::compare_idents(t1.0@, t2.0@),
                ),
                ident::compare_idents(c1.0@, c2.0@),
            ),
            _ => Some(false),
        },
        Expr::InList { lhs: l1, not: n1, rhs: r1 } => match b {
            Expr::InList { lhs: l2, not: n2, rhs: r2 } => outcome::both(
                outcome::both(Some(n1 == n2), compare_exprs(*l1, *l2)),
                match (r1, r2) {
                    (None, None) => Some(true),
                    (Some(v1), Some(v2)) => if v1@.len() == v2@.len() {
                        compare_lists(v1@, v2@, v1@.len())
                    } else {
                        Some(false)
                    },
                    _ => Some(false),
                },
            ),
            _ => Some(false),
        },
        _ => same::same_expr(a, b),
    }
}

/// What comparing the first `n` expressions of two lists gives.
pub open spec fn compare_lists(a: Seq<Expr>, b: Seq<Expr>, n: nat) -> Option<bool>
    decreases size_of_list(a, n) + size_of_list(b, n), 2nat,
{
    if n == 0 || n > a.len() || n > b.len() {
        Some(true)
    } else {
        proof {
            lemma_size_positive(a[n - 1]);
            lemma_size_positive(b[n - 1]);
        }
        outcome::both(compare_lists(a, b, (n - 1) as nat), compare_exprs(a[n - 1], b[n - 1]))
    }
}

/// What comparing the first `n` pairs of two lists gives.
pub open spec fn compare_pairs(a: Seq<(Expr, Expr)>, b: Seq<(Expr, Expr)>, n: nat) -> Option<bool>
    decreases size_of_pairs(a, n) + size_of_pairs(b, n), 2nat,
{
    if n == 0 || n > a.len() || n > b.len() {
        Some(true)
    } else {
        proof {
            lemma_size_positive(a[n - 1].0);
            lemma_size_positive(b[n - 1].0);
        }
        outcome::both(
            compare_pairs(a, b, (n - 1) as nat),
            outcome::both(
                compare_exprs(a[n - 1].0, b[n - 1].0),
                compare_exprs(a[n - 1].1, b[n - 1].1),
            ),
        )
    }
}

/// An expression is made of one expression at least.
pub proof fn lemma_size_positive(e: Expr)
    ensures
        size(e) >= 1,
{
}

/// A list of one expression is made of what that expression is made of.
pub proof fn lemma_size_of_one(s: Seq<Expr>)
    requires
        s.len() == 1,
    ensures
        size_of_list(s, 1) == size(s[0]),
{
    reveal_with_fuel(size_of_list, 2);
}

/// Tells whether two numeric literals stand for the same number or, where one
/// of them stands for none, are written alike.
pub fn cmp_numeric_strings(num: &Number, other: &Number) -> (res: bool)
    ensures
        res == same_number(*num, *other),
{
    match (num.value, other.value) {
        (Some(x), Some(y)) => double::eq_doubles(x, y),
        _ => num.text == other.text,
    }
}

/// `check_literal_equivalency`, or nothing where it comes to compare a lone
/// quotation mark.
pub fn try_check_literal_equivalency(lhs: &Literal, rhs: &Literal) -> (res: Option<bool>)
    ensures
        res == compare_literals(*lhs, *rhs),
{
    match (lhs, rhs) {
        (Literal::Numeric(n1), Literal::Numeric(n2)) => Some(cmp_numeric_strings(n1, n2)),
        (Literal::String(s1), Literal::String(s2)) => ident::try_check_ident_equivalency(s1, s2),
        (Literal::Blob(b1), Literal::Blob(b2)) => Some(*b1 == *b2),
        (Literal::Keyword(k1), Literal::Keyword(k2)) => ident::try_check_ident_equivalency(k1, k2),
        (Literal::Null, Literal::Null) => Some(true),
        (Literal::CurrentDate, Literal::CurrentDate) => Some(true),
        (Literal::CurrentTime, Literal::CurrentTime) => Some(true),
        (Literal::CurrentTimestamp, Literal::CurrentTimestamp) => Some(true),
        _ => Some(false),
    }
}

/// Tells whether two literals mean the same.
pub fn check_literal_equivalency(lhs: &Literal, rhs: &Literal) -> (res: bool)
    requires
        compare_literals(*lhs, *rhs) is Some,
    ensures
        Some(res) == compare_literals(*lhs, *rhs),
{
    match try_check_literal_equivalency(lhs, rhs) {
        Some(res) => res,
        None => false,
    }
}

/// Tells whether two expressions are logically equivalent in the context of
/// queries, even if their representations differ, such as `SUM(x)` and
/// `sum(x)`, or `x + y` and `y + x`. Constant parts are not evaluated.
pub fn exprs_are_equivalent(expr1: &Expr, expr2: &Expr) -> (res: bool)
    requires
        compare_exprs(*expr1, *expr2) is Some,
    ensures
        Some(res) == compare_exprs(*expr1, *expr2),
{
    match try_exprs_are_equivalent(expr1, expr2) {
        Some(res) => res,
        None => false,
    }
}

/// `exprs_are_equivalent`, or nothing where it comes to compare a lone quotation
/// mark or two names that cannot be compared.
#[verifier::rlimit(4)]
pub fn try_exprs_are_equivalent(expr1: &Expr, expr2: &Expr) -> (res: Option<bool>)
    ensures
        res == compare_exprs(*expr1, *expr2),
    decreases size(*expr1) + size(*expr2), 1nat,
{
    match expr1 {
        Expr::Parenthesized(v1) => match expr2 {
            Expr::Parenthesized(v2) => lists_are_equivalent(v1, v2),
            _ => if v1.len() == 1 {
                proof {
                    lemma_size_of_one(v1@);
                }
                try_exprs_are_equivalent(&v1[0], expr2)
            } else {
                Some(false)
            },
        },
        _ => match expr2 {
            Expr::Parenthesized(v2) => if v2.len() == 1 {
                proof {
                    lemma_size_of_one(v2@);
                }
                try_exprs_are_equivalent(&v2[0], expr1)
            } else {
                Some(false)
            },
            _ => bare_exprs_are_equivalent(expr1, expr2),
        },
    }
}

/// Tells whether two expressions, neither of which is in parentheses, are
/// equivalent.
#[verifier::rlimit(4)]
fn bare_exprs_are_equivalent(expr1: &Expr, expr2: &Expr) -> (res: Option<bool>)
    ensures
        res == compare_bare_exprs(*expr1, *expr2),
    decreases size(*expr1) + size(*expr2), 0nat,
{
    match expr1 {
        Expr::Between { lhs: lhs1, not: not1, start: start1, end: end1 } => match expr2 {
            Expr::Between { lhs: lhs2, not: not2, start: start2, end: end2 } => if *not1 != *not2 {
                Some(false)
            } else {
                match try_exprs_are_equivalent(lhs1, lhs2) {
                    Some(true) => match try_exprs_are_equivalent(start1, start2) {
                        Some(true) => try_exprs_are_equivalent(end1, end2),
                        other => other,
                    },
                    other => other,
                }
            },
            _ => Some(false),
        },
        Expr::Binary(lhs1, op1, rhs1) => match expr2 {
            Expr::Binary(lhs2, op2, rhs2) => if *op1 != *op2 {
                Some(false)
            } else {
                let in_order = match try_exprs_are_equivalent(lhs1, lhs2) {
                    Some(true) => try_exprs_are_equivalent(rhs1, rhs2),
                    other => other,
                };
                match in_order {
                    Some(false) => if op1.is_commutative() {
                        match try_exprs_are_equivalent(lhs1, rhs2) {
                            Some(true) => try_exprs_are_equivalent(rhs1, lhs2),
                            other => other,
                        }
                    } else {
                        Some(false)
                    },
                    other => other,
                }
            },
            _ => Some(false),
        },
        Expr::Case { base: base1, when_then_pairs: pairs1, else_expr: else1 } => match expr2 {
            Expr::Case { base: base2, when_then_pairs: pairs2, else_expr: else2 } => match same::eq_opt_expr(
                base1,
                base2,
            ) {
                Some(true) => match pairs_are_equivalent(pairs1, pairs2) {
                    Some(true) => same::eq_opt_expr(else1, else2),
                    other => other,
                },
                other => other,
            },
            _ => Some(false),
        },
        Expr::Cast { expr: expr1, target: type1 } => match expr2 {
            Expr::Cast { expr: expr2, target: type2 } => match try_exprs_are_equivalent(
                expr1,
                expr2,
            ) {
                Some(true) => match (type1, type2) {
                    (None, None) => Some(true),
                    (Some(t1), Some(t2)) => Some(text::eq_ignore_ascii_case(&t1.name, &t2.name)),
                    _ => Some(false),
                },
                other => other,
            },
            _ => Some(false),
        },
        Expr::Collate(expr1, collation1) => match expr2 {
            Expr::Collate(expr2, collation2) => match try_exprs_are_equivalent(expr1, expr2) {
                Some(true) => Some(text::eq_ignore_ascii_case(collation1, collation2)),
                other => other,
            },
            _ => Some(false),
        },
        Expr::FunctionCall {
            name: name1,
            distinctness: distinct1,
            args: args1,
            order_by: order1,
            filter_over: filter1,
        } => match expr2 {
            Expr::FunctionCall {
                name: name2,
                distinctness: distinct2,
                args: args2,
                order_by: order2,
                filter_over: filter2,
            } => if text::eq_ignore_ascii_case(&name1.0, &name2.0) && *distinct1 == *distinct2 {
                match same::eq_opt_exprs(args1, args2) {
                    Some(true) => match same::eq_opt_sorted(order1, order2) {
                        Some(true) => same::eq_opt_tail(filter1, filter2),
                        other => other,
                    },
                    other => other,
                }
            } else {
                Some(false)
            },
            _ => Some(false),
        },
        Expr::FunctionCallStar { name: name1, filter_over: filter1 } => match expr2 {
            Expr::FunctionCallStar { name: name2, filter_over: filter2 } => if text::eq_ignore_ascii_case(
                &name1.0,
                &name2.0,
            ) {
                match (filter1, filter2) {
                    (None, None) => Some(true),
                    (Some(tail1), Some(tail2)) => {
                        let filters = match (&tail1.filter_clause, &tail2.filter_clause) {
                            (None, None) => Some(true),
                            (Some(fc1), Some(fc2)) => try_exprs_are_equivalent(fc1, fc2),
                            _ => Some(false),
                        };
                        match filters {
                            Some(true) => same::eq_opt_over(
                                &tail1.over_clause,
                                &tail2.over_clause,
                            ),
                            other => other,
                        }
                    },
                    _ => Some(false),
                }
            } else {
                Some(false)
            },
            _ => Some(false),
        },
        Expr::NotNull(expr1) => match expr2 {
            Expr::NotNull(expr2) => try_exprs_are_equivalent(expr1, expr2),
            _ => Some(false),
        },
        Expr::IsNull(expr1) => match expr2 {
            Expr::IsNull(expr2) => try_exprs_are_equivalent(expr1, expr2),
            _ => Some(false),
        },
        Expr::Literal(lit1) => match expr2 {
            Expr::Literal(lit2) => try_check_literal_equivalency(lit1, lit2),
            _ => Some(false),
        },
        Expr::Id(id1) => match expr2 {
            Expr::Id(id2) => ident::try_check_ident_equivalency(&id1.0, &id2.0),
            _ => Some(false),
        },
        Expr::Unary(op1, expr1) => match expr2 {
            Expr::Unary(op2, expr2) => if *op1 == *op2 {
                try_exprs_are_equivalent(expr1, expr2)
            } else {
                Some(false)
            },
            _ => Some(false),
        },
        Expr::Qualified(tn1, cn1) => match expr2 {
            Expr::Qualified(tn2, cn2) => match ident::try_check_ident_equivalency(&tn1.0, &tn2.0) {
                Some(true) => ident::try_check_ident_equivalency(&cn1.0, &cn2.0),
                other => other,
            },
            _ => Some(false),
        },
        Expr::DoublyQualified(sn1, tn1, cn1) => match expr2 {
            Expr::DoublyQualified(sn2, tn2, cn2) => match ident::try_check_ident_equivalency(
                &sn1.0,
                &sn2.0,
            ) {
                Some(true) => match ident::try_check_ident_equivalency(&tn1.0, &tn2.0) {
                    Some(true) => ident::try_check_ident_equivalency(&cn1.0, &cn2.0),
                    other => other,
                },
                other => other,
            },
            _ => Some(false),
        },
        Expr::InList { lhs: lhs1, not: not1, rhs: rhs1 } => match expr2 {
            Expr::InList { lhs: lhs2, not: not2, rhs: rhs2 } => if *not1 != *not2 {
                Some(false)
            } else {
                match try_exprs_are_equivalent(lhs1, lhs2) {
                    Some(true) => match (rhs1, rhs2) {
                        (None, None) => Some(true),
                        (Some(list1), Some(list2)) => lists_are_equivalent(list1, list2),
                        _ => Some(false),
                    },
                    other => other,
                }
            },
            _ => Some(false),
        },
        // fall back to naive equality check
        _ => same::eq_expr(expr1, expr2),
    }
}

/// Tells whether two lists are of the same length and equivalent one by one.
#[verifier::rlimit(4)]
fn lists_are_equivalent(list1: &Vec<Expr>, list2: &Vec<Expr>) -> (res: Option<bool>)
    ensures
        res == if list1@.len() == list2@.len() {
            compare_lists(list1@, list2@, list1@.len())
        } else {
            Some(false)
        },
    decreases size_of_list(list1@, list1@.len()) + size_of_list(list2@, list2@.len()), 3nat,
{
    if list1.len() != list2.len() {
        return Some(false);
    }
    let mut res: Option<bool> = Some(true);
    for i in 0..list1.len()
        invariant
            list1@.len() == list2@.len(),
            res == compare_lists(list1@, list2@, i as nat),
    {
        if let Some(true) = res {
            proof {
                lemma_size_in_list(list1@, i as int, list1@.len());
                lemma_size_in_list(list2@, i as int, list2@.len());
            }
            res = try_exprs_are_equivalent(&list1[i], &list2[i]);
        }
    }
    res
}

/// Tells whether two lists of pairs are of the same length and equivalent one
/// by one.
#[verifier::rlimit(4)]
fn pairs_are_equivalent(pairs1: &Vec<(Expr, Expr)>, pairs2: &Vec<(Expr, Expr)>) -> (res: Option<
    bool,
>)
    ensures
        res == if pairs1@.len() == pairs2@.len() {
            compare_pairs(pairs1@, pairs2@, pairs1@.len())
        } else {
            Some(false)
        },
    decreases size_of_pairs(pairs1@, pairs1@.len()) + size_of_pairs(pairs2@, pairs2@.len()), 3nat,
{
    if pairs1.len() != pairs2.len() {
        return Some(false);
    }
    let mut res: Option<bool> = Some(true);
    for i in 0..pairs1.len()
        invariant
            pairs1@.len() == pairs2@.len(),
            res == compare_pairs(pairs1@, pairs2@, i as nat),
    {
        if let Some(true) = res {
            proof {
                lemma_size_in_pairs(pairs1@, i as int, pairs1@.len());
                lemma_size_in_pairs(pairs2@, i as int, pairs2@.len());
            }
            res = match try_exprs_are_equivalent(&pairs1[i].0, &pairs2[i].0) {
                Some(true) => try_exprs_are_equivalent(&pairs1[i].1, &pairs2[i].1),
                other => other,
            };
        }
    }
    res
}

proof fn lemma_size_in_list(s: Seq<Expr>, i: int, n: nat)
    requires
        0 <= i < n <= s.len(),
    ensures
        size(s[i]) <= size_of_list(s, n),
    decreases n,
{
    if i < n - 1 {
        lemma_size_in_list(s, i, (n - 1) as nat);
    }
}

proof fn lemma_size_in_pairs(s: Seq<(Expr, Expr)>, i: int, n: nat)
    requires
        0 <= i < n <= s.len(),
    ensures
        size(s[i].0) + size(s[i].1) <= size_of_pairs(s, n),
    decreases n,
{
    if i < n - 1 {
        lemma_size_in_pairs(s, i, (n - 1) as nat);
    }
}

} // verus!
