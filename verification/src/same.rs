//! Equality of expressions, part by part.
//!
//! Equality has no outcome where it comes to compare two names that cannot be
//! compared.

use vstd::prelude::*;
use vstd::string::*;

use crate::ast::{
    Expr, FrameBound, FrameClause, FunctionTail, Literal, Name, Over, QualifiedName,
    SortedColumn, Type, TypeSize, Window,
};
use crate::name;
use crate::outcome;

verus! {

/// Two names are equal.
pub open spec fn same_name(a: Name, b: Name) -> Option<bool> {
    name::compare_names(a.0@, b.0@)
}

/// Two optional names are equal.
pub open spec fn same_opt_name(a: Option<Name>, b: Option<Name>) -> Option<bool> {
    match (a, b) {
        (None, None) => Some(true),
        (Some(x), Some(y)) => same_name(x, y),
        _ => Some(false),
    }
}

/// Two qualified names are equal.
pub open spec fn same_qualified(a: QualifiedName, b: QualifiedName) -> Option<bool> {
    outcome::both(
        outcome::both(same_opt_name(a.db_name, b.db_name), same_name(a.name, b.name)),
        same_opt_name(a.alias, b.alias),
    )
}

/// Two literals are equal: written alike.
pub open spec fn same_literal(a: Literal, b: Literal) -> bool {
    match (a, b) {
        (Literal::Numeric(x), Literal::Numeric(y)) => x.text@ == y.text@,
        (Literal::String(x), Literal::String(y)) => x@ == y@,
        (Literal::Blob(x), Literal::Blob(y)) => x@ == y@,
        (Literal::Keyword(x), Literal::Keyword(y)) => x@ == y@,
        (Literal::Null, Literal::Null) => true,
        (Literal::CurrentDate, Literal::CurrentDate) => true,
        (Literal::CurrentTime, Literal::CurrentTime) => true,
        (Literal::CurrentTimestamp, Literal::CurrentTimestamp) => true,
        _ => false,
    }
}

/// Two expressions are equal.
pub open spec fn same_expr(a: Expr, b: Expr) -> Option<bool>
    decreases a, 0nat,
{
    match a {
        Expr::Between { lhs: l1, not: n1, start: s1, end: e1 } => match b {
            Expr::Between { lhs: l2, not: n2, start: s2, end: e2 } => outcome::both(
                outcome::both(
                    outcome::both(same_expr(*l1, *l2), Some(n1 == n2)),
                    same_expr(*s1, *s2),
                ),
                same_expr(*e1, *e2),
            ),
            _ => Some(false),
        },
        Expr::Binary(l1, o1, r1) => match b {
            Expr::Binary(l2, o2, r2) => outcome::both(
                outcome::both(same_expr(*l1, *l2), Some(o1 == o2)),
                same_expr(*r1, *r2),
            ),
            _ => Some(false),
        },
        Expr::Case { base: b1, when_then_pairs: p1, else_expr: e1 } => match b {
            Expr::Case { base: b2, when_then_pairs: p2, else_expr: e2 } => outcome::both(
                outcome::both(
                    same_opt_expr(b1, b2),
                    outcome::both(
                        Some(p1@.len() == p2@.len()),
                        same_pairs(p1@, p2@, p1@.len()),
                    ),
                ),
                same_opt_expr(e1, e2),
            ),
            _ => Some(false),
        },
        Expr::Cast { expr: x1, target: t1 } => match b {
            Expr::Cast { expr: x2, target: t2 } => outcome::both(
                same_expr(*x1, *x2),
                same_opt_type(t1, t2),
            ),
            _ => Some(false),
        },
        Expr::Collate(x1, c1) => match b {
            Expr::Collate(x2, c2) => outcome::both(
                same_expr(*x1, *x2),
                Some(c1@ == c2@),
            ),
            _ => Some(false),
        },
        Expr::DoublyQualified(s1, t1, c1) => match b {
            Expr::DoublyQualified(s2, t2, c2) => outcome::both(
                outcome::both(same_name(s1, s2), same_name(t1, t2)),
                same_name(c1, c2),
            ),
            _ => Some(false),
        },
        Expr::Exists(s1) => match b {
            Expr::Exists(s2) => Some(*s1 == *s2),
            _ => Some(false),
        },
        Expr::FunctionCall {
            name: n1,
            distinctness: d1,
            args: a1,
            order_by: o1,
            filter_over: f1,
        } => match b {
            Expr::FunctionCall {
                name: n2,
                distinctness: d2,
                args: a2,
                order_by: o2,
                filter_over: f2,
            } => outcome::both(
                outcome::both(
                    outcome::both(Some(n1.0@ == n2.0@ && d1 == d2), same_opt_exprs(a1, a2)),
                    same_opt_sorted(o1, o2),
                ),
                same_opt_tail(f1, f2),
            ),
            _ => Some(false),
        },
        Expr::FunctionCallStar { name: n1, filter_over: f1 } => match b {
            Expr::FunctionCallStar { name: n2, filter_over: f2 } => outcome::both(
                Some(n1.0@ == n2.0@),
                same_opt_tail(f1, f2),
            ),
            _ => Some(false),
        },
        Expr::Id(i1) => match b {
            Expr::Id(i2) => Some(i1.0@ == i2.0@),
            _ => Some(false),
        },
        Expr::Column { database: d1, table: t1, column: c1, is_rowid_alias: r1 } => match b {
            Expr::Column { database: d2, table: t2, column: c2, is_rowid_alias: r2 } => Some(
                d1 == d2 && t1 == t2 && c1 == c2 && r1 == r2,
            ),
            _ => Some(false),
        },
        Expr::RowId { database: d1, table: t1 } => match b {
            Expr::RowId { database: d2, table: t2 } => Some(d1 == d2 && t1 == t2),
            _ => Some(false),
        },
        Expr::InList { lhs: l1, not: n1, rhs: r1 } => match b {
            Expr::InList { lhs: l2, not: n2, rhs: r2 } => outcome::both(
                outcome::both(same_expr(*l1, *l2), Some(n1 == n2)),
                same_opt_exprs(r1, r2),
            ),
            _ => Some(false),
        },
        Expr::InSelect { lhs: l1, not: n1, rhs: r1 } => match b {
            Expr::InSelect { lhs: l2, not: n2, rhs: r2 } => outcome::both(
                same_expr(*l1, *l2),
                Some(n1 == n2 && *r1 == *r2),
            ),
            _ => Some(false),
        },
        Expr::InTable { lhs: l1, not: n1, rhs: r1, args: a1 } => match b {
            Expr::InTable { lhs: l2, not: n2, rhs: r2, args: a2 } => outcome::both(
                outcome::both(
                    outcome::both(same_expr(*l1, *l2), Some(n1 == n2)),
                    same_qualified(r1, r2),
                ),
                same_opt_exprs(a1, a2),
            ),
            _ => Some(false),
        },
        Expr::IsNull(x1) => match b {
            Expr::IsNull(x2) => same_expr(*x1, *x2),
            _ => Some(false),
        },
        Expr::Like { lhs: l1, not: n1, op: o1, rhs: r1, escape: e1 } => match b {
            Expr::Like { lhs: l2, not: n2, op: o2, rhs: r2, escape: e2 } => outcome::both(
                outcome::both(
                    outcome::both(same_expr(*l1, *l2), Some(n1 == n2 && o1 == o2)),
                    same_expr(*r1, *r2),
                ),
                same_opt_expr(e1, e2),
            ),
            _ => Some(false),
        },
        Expr::Literal(l1) => match b {
            Expr::Literal(l2) => Some(same_literal(l1, l2)),
            _ => Some(false),
        },
        Expr::Name(n1) => match b {
            Expr::Name(n2) => same_name(n1, n2),
            _ => Some(false),
        },
        Expr::NotNull(x1) => match b {
            Expr::NotNull(x2) => same_expr(*x1, *x2),
            _ => Some(false),
        },
        Expr::Parenthesized(v1) => match b {
            Expr::Parenthesized(v2) => outcome::both(
                Some(v1@.len() == v2@.len()),
                same_exprs(v1@, v2@, v1@.len()),
            ),
            _ => Some(false),
        },
        Expr::Qualified(t1, c1) => match b {
            Expr::Qualified(t2, c2) => outcome::both(
                same_name(t1, t2),
                same_name(c1, c2),
            ),
            _ => Some(false),
        },
        Expr::Raise(r1, x1) => match b {
            Expr::Raise(r2, x2) => outcome::both(
                Some(r1 == r2),
                same_opt_expr(x1, x2),
            ),
            _ => Some(false),
        },
        Expr::Subquery(s1) => match b {
            Expr::Subquery(s2) => Some(*s1 == *s2),
            _ => Some(false),
        },
        Expr::Unary(o1, x1) => match b {
            Expr::Unary(o2, x2) => outcome::both(
                Some(o1 == o2),
                same_expr(*x1, *x2),
            ),
            _ => Some(false),
        },
        Expr::Variable(v1) => match b {
            Expr::Variable(v2) => Some(v1@ == v2@),
            _ => Some(false),
        },
    }
}

/// Two optional expressions are equal.
pub open spec fn same_opt_expr(a: Option<Box<Expr>>, b: Option<Box<Expr>>) -> Option<bool>
    decreases a, 0nat,
{
    match (a, b) {
        (None, None) => Some(true),
        (Some(x), Some(y)) => same_expr(*x, *y),
        _ => Some(false),
    }
}

/// The first `n` expressions of two lists are equal.
pub open spec fn same_exprs(a: Seq<Expr>, b: Seq<Expr>, n: nat) -> Option<bool>
    decreases a, n,
{
    if n == 0 || n > a.len() || n > b.len() {
        Some(true)
    } else {
        outcome::both(same_exprs(a, b, (n - 1) as nat), same_expr(a[n - 1], b[n - 1]))
    }
}

/// Two optional lists of expressions are equal.
pub open spec fn same_opt_exprs(a: Option<Vec<Expr>>, b: Option<Vec<Expr>>) -> Option<bool>
    decreases a, 0nat,
{
    match (a, b) {
        (None, None) => Some(true),
        (Some(x), Some(y)) => outcome::both(
            Some(x@.len() == y@.len()),
            same_exprs(x@, y@, x@.len()),
        ),
        _ => Some(false),
    }
}

/// The first `n` pairs of two lists are equal.
pub open spec fn same_pairs(a: Seq<(Expr, Expr)>, b: Seq<(Expr, Expr)>, n: nat) -> Option<bool>
    decreases a, n,
{
    if n == 0 || n > a.len() || n > b.len() {
        Some(true)
    } else {
        outcome::both(
            same_pairs(a, b, (n - 1) as nat),
            outcome::both(
                same_expr(a[n - 1].0, b[n - 1].0),
                same_expr(a[n - 1].1, b[n - 1].1),
            ),
        )
    }
}

/// The first `n` terms of two `ORDER BY` clauses are equal.
pub open spec fn same_sorted(a: Seq<SortedColumn>, b: Seq<SortedColumn>, n: nat) -> Option<bool>
    decreases a, n,
{
    if n == 0 || n > a.len() || n > b.len() {
        Some(true)
    } else {
        outcome::both(
            same_sorted(a, b, (n - 1) as nat),
            outcome::both(
                same_expr(a[n - 1].expr, b[n - 1].expr),
                Some(a[n - 1].order == b[n - 1].order && a[n - 1].nulls == b[n - 1].nulls),
            ),
        )
    }
}

/// Two optional `ORDER BY` clauses are equal.
pub open spec fn same_opt_sorted(
    a: Option<Vec<SortedColumn>>,
    b: Option<Vec<SortedColumn>>,
) -> Option<bool>
    decreases a, 0nat,
{
    match (a, b) {
        (None, None) => Some(true),
        (Some(x), Some(y)) => outcome::both(
            Some(x@.len() == y@.len()),
            same_sorted(x@, y@, x@.len()),
        ),
        _ => Some(false),
    }
}

/// Two optional ends of a function call are equal.
pub open spec fn same_opt_tail(a: Option<FunctionTail>, b: Option<FunctionTail>) -> Option<bool>
    decreases a, 0nat,
{
    match (a, b) {
        (None, None) => Some(true),
        (Some(x), Some(y)) => outcome::both(
            same_opt_expr(x.filter_clause, y.filter_clause),
            same_opt_over(x.over_clause, y.over_clause),
        ),
        _ => Some(false),
    }
}

/// Two optional `OVER` clauses are equal.
pub open spec fn same_opt_over(a: Option<Box<Over>>, b: Option<Box<Over>>) -> Option<bool>
    decreases a, 0nat,
{
    match (a, b) {
        (None, None) => Some(true),
        (Some(x), Some(y)) => same_over(*x, *y),
        _ => Some(false),
    }
}

/// Two `OVER` clauses are equal.
pub open spec fn same_over(a: Over, b: Over) -> Option<bool>
    decreases a, 0nat,
{
    match (a, b) {
        (Over::Window(x), Over::Window(y)) => same_window(x, y),
        (Over::Name(x), Over::Name(y)) => same_name(x, y),
        _ => Some(false),
    }
}

/// Two window definitions are equal.
pub open spec fn same_window(a: Window, b: Window) -> Option<bool>
    decreases a, 0nat,
{
    outcome::both(
        outcome::both(
            outcome::both(
                same_opt_name(a.base, b.base),
                same_opt_exprs(a.partition_by, b.partition_by),
            ),
            same_opt_sorted(a.order_by, b.order_by),
        ),
        same_opt_frame(a.frame_clause, b.frame_clause),
    )
}

/// Two optional window frames are equal.
pub open spec fn same_opt_frame(a: Option<FrameClause>, b: Option<FrameClause>) -> Option<bool>
    decreases a, 0nat,
{
    match (a, b) {
        (None, None) => Some(true),
        (Some(x), Some(y)) => outcome::both(
            outcome::both(
                outcome::both(Some(x.mode == y.mode), same_bound(x.start, y.start)),
                same_opt_bound(x.end, y.end),
            ),
            Some(x.exclude == y.exclude),
        ),
        _ => Some(false),
    }
}

/// Two bounds of a window frame are equal.
pub open spec fn same_bound(a: FrameBound, b: FrameBound) -> Option<bool>
    decreases a, 0nat,
{
    match (a, b) {
        (FrameBound::CurrentRow, FrameBound::CurrentRow) => Some(true),
        (FrameBound::Following(x), FrameBound::Following(y)) => same_expr(*x, *y),
        (FrameBound::Preceding(x), FrameBound::Preceding(y)) => same_expr(*x, *y),
        (FrameBound::UnboundedFollowing, FrameBound::UnboundedFollowing) => Some(true),
        (FrameBound::UnboundedPreceding, FrameBound::UnboundedPreceding) => Some(true),
        _ => Some(false),
    }
}

/// Two optional bounds of a window frame are equal.
pub open spec fn same_opt_bound(a: Option<FrameBound>, b: Option<FrameBound>) -> Option<bool>
    decreases a, 0nat,
{
    match (a, b) {
        (None, None) => Some(true),
        (Some(x), Some(y)) => same_bound(x, y),
        _ => Some(false),
    }
}

/// Two optional column types are equal.
pub open spec fn same_opt_type(a: Option<Type>, b: Option<Type>) -> Option<bool>
    decreases a, 0nat,
{
    match (a, b) {
        (None, None) => Some(true),
        (Some(x), Some(y)) => outcome::both(
            Some(x.name@ == y.name@),
            same_opt_size(x.size, y.size),
        ),
        _ => Some(false),
    }
}

/// Two optional sizes of a column type are equal.
pub open spec fn same_opt_size(a: Option<TypeSize>, b: Option<TypeSize>) -> Option<bool>
    decreases a, 0nat,
{
    match (a, b) {
        (None, None) => Some(true),
        (Some(TypeSize::MaxSize(x)), Some(TypeSize::MaxSize(y))) => same_expr(*x, *y),
        (Some(TypeSize::TypeSize(x, s)), Some(TypeSize::TypeSize(y, t))) => outcome::both(
            same_expr(*x, *y),
            same_expr(*s, *t),
        ),
        _ => Some(false),
    }
}

fn eq_name(a: &Name, b: &Name) -> (res: Option<bool>)
    ensures
        res == same_name(*a, *b),
{
    name::eq_names(a.0.as_str(), b.0.as_str())
}

fn eq_opt_name(a: &Option<Name>, b: &Option<Name>) -> (res: Option<bool>)
    ensures
        res == same_opt_name(*a, *b),
{
    match (a, b) {
        (None, None) => Some(true),
        (Some(x), Some(y)) => eq_name(x, y),
        _ => Some(false),
    }
}

fn eq_qualified(a: &QualifiedName, b: &QualifiedName) -> (res: Option<bool>)
    ensures
        res == same_qualified(*a, *b),
{
    match eq_opt_name(&a.db_name, &b.db_name) {
        Some(true) => match eq_name(&a.name, &b.name) {
            Some(true) => eq_opt_name(&a.alias, &b.alias),
            other => other,
        },
        other => other,
    }
}

fn eq_literal(a: &Literal, b: &Literal) -> (res: bool)
    ensures
        res == same_literal(*a, *b),
{
    match (a, b) {
        (Literal::Numeric(x), Literal::Numeric(y)) => x.text == y.text,
        (Literal::String(x), Literal::String(y)) => *x == *y,
        (Literal::Blob(x), Literal::Blob(y)) => *x == *y,
        (Literal::Keyword(x), Literal::Keyword(y)) => *x == *y,
        (Literal::Null, Literal::Null) => true,
        (Literal::CurrentDate, Literal::CurrentDate) => true,
        (Literal::CurrentTime, Literal::CurrentTime) => true,
        (Literal::CurrentTimestamp, Literal::CurrentTimestamp) => true,
        _ => false,
    }
}

/// Tells whether two expressions are equal, part by part.
#[verifier::rlimit(4)]
pub fn eq_expr(a: &Expr, b: &Expr) -> (res: Option<bool>)
    ensures
        res == same_expr(*a, *b),
    decreases *a, 0nat,
{
    match a {
        Expr::Between { lhs: l1, not: n1, start: s1, end: e1 } => match b {
            Expr::Between { lhs: l2, not: n2, start: s2, end: e2 } => match eq_expr(l1, l2) {
                Some(true) => if *n1 != *n2 {
                    Some(false)
                } else {
                    match eq_expr(s1, s2) {
                        Some(true) => eq_expr(e1, e2),
                        other => other,
                    }
                },
                other => other,
            },
            _ => Some(false),
        },
        Expr::Binary(l1, o1, r1) => match b {
            Expr::Binary(l2, o2, r2) => match eq_expr(l1, l2) {
                Some(true) => if *o1 != *o2 {
                    Some(false)
                } else {
                    eq_expr(r1, r2)
                },
                other => other,
            },
            _ => Some(false),
        },
        Expr::Case { base: b1, when_then_pairs: p1, else_expr: e1 } => match b {
            Expr::Case { base: b2, when_then_pairs: p2, else_expr: e2 } => match eq_opt_expr(
                b1,
                b2,
            ) {
                Some(true) => match eq_pairs(p1, p2) {
                    Some(true) => eq_opt_expr(e1, e2),
                    other => other,
                },
                other => other,
            },
            _ => Some(false),
        },
        Expr::Cast { expr: x1, target: t1 } => match b {
            Expr::Cast { expr: x2, target: t2 } => match eq_expr(
                x1,
                x2,
            ) {
                Some(true) => eq_opt_type(t1, t2),
                other => other,
            },
            _ => Some(false),
        },
        Expr::Collate(x1, c1) => match b {
            Expr::Collate(x2, c2) => match eq_expr(x1, x2) {
                Some(true) => Some(*c1 == *c2),
                other => other,
            },
            _ => Some(false),
        },
        Expr::DoublyQualified(s1, t1, c1) => match b {
            Expr::DoublyQualified(s2, t2, c2) => match eq_name(
                s1,
                s2,
            ) {
                Some(true) => match eq_name(t1, t2) {
                    Some(true) => eq_name(c1, c2),
                    other => other,
                },
                other => other,
            },
            _ => Some(false),
        },
        Expr::Exists(s1) => match b {
            Expr::Exists(s2) => Some(s1.0 == s2.0),
            _ => Some(false),
        },
        Expr::FunctionCall {
            name: n1,
            distinctness: d1,
            args: a1,
            order_by: o1,
            filter_over: f1,
        } => match b {
            Expr::FunctionCall {
                name: n2,
                distinctness: d2,
                args: a2,
                order_by: o2,
                filter_over: f2,
            } => if n1.0 == n2.0 && *d1 == *d2 {
                match eq_opt_exprs(a1, a2) {
                    Some(true) => match eq_opt_sorted(o1, o2) {
                        Some(true) => eq_opt_tail(f1, f2),
                        other => other,
                    },
                    other => other,
                }
            } else {
                Some(false)
            },
            _ => Some(false),
        },
        Expr::FunctionCallStar { name: n1, filter_over: f1 } => match b {
            Expr::FunctionCallStar { name: n2, filter_over: f2 } => if n1.0 == n2.0 {
                eq_opt_tail(f1, f2)
            } else {
                Some(false)
            },
            _ => Some(false),
        },
        Expr::Id(i1) => match b {
            Expr::Id(i2) => Some(i1.0 == i2.0),
            _ => Some(false),
        },
        Expr::Column { database: d1, table: t1, column: c1, is_rowid_alias: r1 } => match b {
            Expr::Column { database: d2, table: t2, column: c2, is_rowid_alias: r2 } => Some(
                *d1 == *d2 && *t1 == *t2 && *c1 == *c2 && *r1 == *r2,
            ),
            _ => Some(false),
        },
        Expr::RowId { database: d1, table: t1 } => match b {
            Expr::RowId { database: d2, table: t2 } => Some(*d1 == *d2 && *t1 == *t2),
            _ => Some(false),
        },
        Expr::InList { lhs: l1, not: n1, rhs: r1 } => match b {
            Expr::InList { lhs: l2, not: n2, rhs: r2 } => match eq_expr(l1, l2) {
                Some(true) => if *n1 != *n2 {
                    Some(false)
                } else {
                    eq_opt_exprs(r1, r2)
                },
                other => other,
            },
            _ => Some(false),
        },
        Expr::InSelect { lhs: l1, not: n1, rhs: r1 } => match b {
            Expr::InSelect { lhs: l2, not: n2, rhs: r2 } => match eq_expr(l1, l2) {
                Some(true) => Some(*n1 == *n2 && r1.0 == r2.0),
                other => other,
            },
            _ => Some(false),
        },
        Expr::InTable { lhs: l1, not: n1, rhs: r1, args: a1 } => match b {
            Expr::InTable { lhs: l2, not: n2, rhs: r2, args: a2 } => match eq_expr(l1, l2) {
                Some(true) => if *n1 != *n2 {
                    Some(false)
                } else {
                    match eq_qualified(r1, r2) {
                        Some(true) => eq_opt_exprs(a1, a2),
                        other => other,
                    }
                },
                other => other,
            },
            _ => Some(false),
        },
        Expr::IsNull(x1) => match b {
            Expr::IsNull(x2) => eq_expr(x1, x2),
            _ => Some(false),
        },
        Expr::Like { lhs: l1, not: n1, op: o1, rhs: r1, escape: e1 } => match b {
            Expr::Like { lhs: l2, not: n2, op: o2, rhs: r2, escape: e2 } => match eq_expr(l1, l2) {
                Some(true) => if *n1 == *n2 && *o1 == *o2 {
                    match eq_expr(r1, r2) {
                        Some(true) => eq_opt_expr(e1, e2),
                        other => other,
                    }
                } else {
                    Some(false)
                },
                other => other,
            },
            _ => Some(false),
        },
        Expr::Literal(l1) => match b {
            Expr::Literal(l2) => Some(eq_literal(l1, l2)),
            _ => Some(false),
        },
        Expr::Name(n1) => match b {
            Expr::Name(n2) => eq_name(n1, n2),
            _ => Some(false),
        },
        Expr::NotNull(x1) => match b {
            Expr::NotNull(x2) => eq_expr(x1, x2),
            _ => Some(false),
        },
        Expr::Parenthesized(v1) => match b {
            Expr::Parenthesized(v2) => eq_exprs(v1, v2),
            _ => Some(false),
        },
        Expr::Qualified(t1, c1) => match b {
            Expr::Qualified(t2, c2) => match eq_name(t1, t2) {
                Some(true) => eq_name(c1, c2),
                other => other,
            },
            _ => Some(false),
        },
        Expr::Raise(r1, x1) => match b {
            Expr::Raise(r2, x2) => if *r1 == *r2 {
                eq_opt_expr(x1, x2)
            } else {
                Some(false)
            },
            _ => Some(false),
        },
        Expr::Subquery(s1) => match b {
            Expr::Subquery(s2) => Some(s1.0 == s2.0),
            _ => Some(false),
        },
        Expr::Unary(o1, x1) => match b {
            Expr::Unary(o2, x2) => if *o1 == *o2 {
                eq_expr(x1, x2)
            } else {
                Some(false)
            },
            _ => Some(false),
        },
        Expr::Variable(v1) => match b {
            Expr::Variable(v2) => Some(*v1 == *v2),
            _ => Some(false),
        },
    }
}

/// Tells whether two optional expressions are equal.
pub fn eq_opt_expr(a: &Option<Box<Expr>>, b: &Option<Box<Expr>>) -> (res: Option<bool>)
    ensures
        res == same_opt_expr(*a, *b),
    decreases *a, 0nat,
{
    match (a, b) {
        (None, None) => Some(true),
        (Some(x), Some(y)) => eq_expr(x, y),
        _ => Some(false),
    }
}

/// Tells whether two lists of expressions are equal.
fn eq_exprs(a: &Vec<Expr>, b: &Vec<Expr>) -> (res: Option<bool>)
    ensures
        res == outcome::both(Some(a@.len() == b@.len()), same_exprs(a@, b@, a@.len())),
    decreases *a, 0nat,
{
    if a.len() != b.len() {
        return Some(false);
    }
    let mut res: Option<bool> = Some(true);
    for i in 0..a.len()
        invariant
            a@.len() == b@.len(),
            res == same_exprs(a@, b@, i as nat),
    {
        if let Some(true) = res {
            res = eq_expr(&a[i], &b[i]);
        }
    }
    res
}

/// Tells whether two optional lists of expressions are equal.
pub fn eq_opt_exprs(a: &Option<Vec<Expr>>, b: &Option<Vec<Expr>>) -> (res: Option<bool>)
    ensures
        res == same_opt_exprs(*a, *b),
    decreases *a, 0nat,
{
    match (a, b) {
        (None, None) => Some(true),
        (Some(x), Some(y)) => eq_exprs(x, y),
        _ => Some(false),
    }
}

fn eq_pairs(a: &Vec<(Expr, Expr)>, b: &Vec<(Expr, Expr)>) -> (res: Option<bool>)
    ensures
        res == outcome::both(Some(a@.len() == b@.len()), same_pairs(a@, b@, a@.len())),
    decreases *a, 0nat,
{
    if a.len() != b.len() {
        return Some(false);
    }
    let mut res: Option<bool> = Some(true);
    for i in 0..a.len()
        invariant
            a@.len() == b@.len(),
            res == same_pairs(a@, b@, i as nat),
    {
        if let Some(true) = res {
            res = match eq_expr(&a[i].0, &b[i].0) {
                Some(true) => eq_expr(&a[i].1, &b[i].1),
                other => other,
            };
        }
    }
    res
}

fn eq_sorted(a: &Vec<SortedColumn>, b: &Vec<SortedColumn>) -> (res: Option<bool>)
    ensures
        res == outcome::both(Some(a@.len() == b@.len()), same_sorted(a@, b@, a@.len())),
    decreases *a, 0nat,
{
    if a.len() != b.len() {
        return Some(false);
    }
    let mut res: Option<bool> = Some(true);
    for i in 0..a.len()
        invariant
            a@.len() == b@.len(),
            res == same_sorted(a@, b@, i as nat),
    {
        if let Some(true) = res {
            res = match eq_expr(&a[i].expr, &b[i].expr) {
                Some(true) => Some(a[i].order == b[i].order && a[i].nulls == b[i].nulls),
                other => other,
            };
        }
    }
    res
}

/// Tells whether two optional `ORDER BY` clauses are equal.
pub fn eq_opt_sorted(a: &Option<Vec<SortedColumn>>, b: &Option<Vec<SortedColumn>>) -> (res: Option<
    bool,
>)
    ensures
        res == same_opt_sorted(*a, *b),
    decreases *a, 0nat,
{
    match (a, b) {
        (None, None) => Some(true),
        (Some(x), Some(y)) => eq_sorted(x, y),
        _ => Some(false),
    }
}

/// Tells whether two optional ends of a function call are equal.
pub fn eq_opt_tail(a: &Option<FunctionTail>, b: &Option<FunctionTail>) -> (res: Option<bool>)
    ensures
        res == same_opt_tail(*a, *b),
    decreases *a, 0nat,
{
    match (a, b) {
        (None, None) => Some(true),
        (Some(x), Some(y)) => match eq_opt_expr(&x.filter_clause, &y.filter_clause) {
            Some(true) => eq_opt_over(&x.over_clause, &y.over_clause),
            other => other,
        },
        _ => Some(false),
    }
}

/// Tells whether two optional `OVER` clauses are equal.
pub fn eq_opt_over(a: &Option<Box<Over>>, b: &Option<Box<Over>>) -> (res: Option<bool>)
    ensures
        res == same_opt_over(*a, *b),
    decreases *a, 0nat,
{
    match (a, b) {
        (None, None) => Some(true),
        (Some(x), Some(y)) => eq_over(x, y),
        _ => Some(false),
    }
}

fn eq_over(a: &Over, b: &Over) -> (res: Option<bool>)
    ensures
        res == same_over(*a, *b),
    decreases *a, 0nat,
{
    match (a, b) {
        (Over::Window(x), Over::Window(y)) => eq_window(x, y),
        (Over::Name(x), Over::Name(y)) => eq_name(x, y),
        _ => Some(false),
    }
}

fn eq_window(a: &Window, b: &Window) -> (res: Option<bool>)
    ensures
        res == same_window(*a, *b),
    decreases *a, 0nat,
{
    match eq_opt_name(&a.base, &b.base) {
        Some(true) => match eq_opt_exprs(&a.partition_by, &b.partition_by) {
            Some(true) => match eq_opt_sorted(&a.order_by, &b.order_by) {
                Some(true) => eq_opt_frame(&a.frame_clause, &b.frame_clause),
                other => other,
            },
            other => other,
        },
        other => other,
    }
}

fn eq_opt_frame(a: &Option<FrameClause>, b: &Option<FrameClause>) -> (res: Option<bool>)
    ensures
        res == same_opt_frame(*a, *b),
    decreases *a, 0nat,
{
    match (a, b) {
        (None, None) => Some(true),
        (Some(x), Some(y)) => if x.mode != y.mode {
            Some(false)
        } else {
            match eq_bound(&x.start, &y.start) {
                Some(true) => match eq_opt_bound(&x.end, &y.end) {
                    Some(true) => Some(x.exclude == y.exclude),
                    other => other,
                },
                other => other,
            }
        },
        _ => Some(false),
    }
}

fn eq_bound(a: &FrameBound, b: &FrameBound) -> (res: Option<bool>)
    ensures
        res == same_bound(*a, *b),
    decreases *a, 0nat,
{
    match (a, b) {
        (FrameBound::CurrentRow, FrameBound::CurrentRow) => Some(true),
        (FrameBound::Following(x), FrameBound::Following(y)) => eq_expr(x, y),
        (FrameBound::Preceding(x), FrameBound::Preceding(y)) => eq_expr(x, y),
        (FrameBound::UnboundedFollowing, FrameBound::UnboundedFollowing) => Some(true),
        (FrameBound::UnboundedPreceding, FrameBound::UnboundedPreceding) => Some(true),
        _ => Some(false),
    }
}

fn eq_opt_bound(a: &Option<FrameBound>, b: &Option<FrameBound>) -> (res: Option<bool>)
    ensures
        res == same_opt_bound(*a, *b),
    decreases *a, 0nat,
{
    match (a, b) {
        (None, None) => Some(true),
        (Some(x), Some(y)) => eq_bound(x, y),
        _ => Some(false),
    }
}

fn eq_opt_type(a: &Option<Type>, b: &Option<Type>) -> (res: Option<bool>)
    ensures
        res == same_opt_type(*a, *b),
    decreases *a, 0nat,
{
    match (a, b) {
        (None, None) => Some(true),
        (Some(x), Some(y)) => if x.name == y.name {
            eq_opt_size(&x.size, &y.size)
        } else {
            Some(false)
        },
        _ => Some(false),
    }
}

fn eq_opt_size(a: &Option<TypeSize>, b: &Option<TypeSize>) -> (res: Option<bool>)
    ensures
        res == same_opt_size(*a, *b),
    decreases *a, 0nat,
{
    match (a, b) {
        (None, None) => Some(true),
        (Some(TypeSize::MaxSize(x)), Some(TypeSize::MaxSize(y))) => eq_expr(x, y),
        (Some(TypeSize::TypeSize(x, s)), Some(TypeSize::TypeSize(y, t))) => match eq_expr(x, y) {
            Some(true) => eq_expr(s, t),
            other => other,
        },
        _ => Some(false),
    }
}

} // verus!
