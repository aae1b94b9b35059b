//! Expressions equal themselves, and are equivalent to themselves.

use vstd::prelude::*;

use crate::ast::{
    Expr, FrameBound, FrameClause, FunctionTail, Literal, Name, Over, QualifiedName, SortedColumn,
    Type, TypeSize, Window,
};
use crate::double;
use crate::equivalence;
use crate::name;
use crate::outcome;
use crate::same;

verus! {

/// An expression equals itself, wherever the comparison has an outcome.
#[verifier::rlimit(3)]
pub proof fn equality_is_reflexive(e: Expr)
    ensures
        outcome::consistent(same::same_expr(e, e), Some(true)),
    decreases e, 0nat,
{
    match e {
        Expr::Between { lhs, start, end, .. } => {
            equality_is_reflexive(*lhs);
            equality_is_reflexive(*start);
            equality_is_reflexive(*end);
        },
        Expr::Binary(lhs, _, rhs) => {
            equality_is_reflexive(*lhs);
            equality_is_reflexive(*rhs);
        },
        Expr::Case { base, when_then_pairs, else_expr } => {
            opt_expr_reflexive(base);
            pairs_reflexive(when_then_pairs@, when_then_pairs@.len());
            opt_expr_reflexive(else_expr);
        },
        Expr::Cast { expr, target } => {
            equality_is_reflexive(*expr);
            opt_type_reflexive(target);
        },
        Expr::Collate(expr, _) => {
            equality_is_reflexive(*expr);
        },
        Expr::FunctionCall { args, order_by, filter_over, .. } => {
            opt_exprs_reflexive(args);
            opt_sorted_reflexive(order_by);
            opt_tail_reflexive(filter_over);
        },
        Expr::FunctionCallStar { filter_over, .. } => {
            opt_tail_reflexive(filter_over);
        },
        Expr::InList { lhs, rhs, .. } => {
            equality_is_reflexive(*lhs);
            opt_exprs_reflexive(rhs);
        },
        Expr::InSelect { lhs, .. } => {
            equality_is_reflexive(*lhs);
        },
        Expr::InTable { lhs, rhs, args, .. } => {
            equality_is_reflexive(*lhs);
            qualified_reflexive(rhs);
            opt_exprs_reflexive(args);
        },
        Expr::IsNull(expr) => {
            equality_is_reflexive(*expr);
        },
        Expr::Like { lhs, rhs, escape, .. } => {
            equality_is_reflexive(*lhs);
            equality_is_reflexive(*rhs);
            opt_expr_reflexive(escape);
        },
        Expr::NotNull(expr) => {
            equality_is_reflexive(*expr);
        },
        Expr::Parenthesized(exprs) => {
            exprs_reflexive(exprs@, exprs@.len());
        },
        Expr::Raise(_, expr) => {
            opt_expr_reflexive(expr);
        },
        Expr::Unary(_, expr) => {
            equality_is_reflexive(*expr);
        },
        Expr::DoublyQualified(schema, table, column) => {
            name::equality_of_names_is_reflexive(schema.0@);
            name::equality_of_names_is_reflexive(table.0@);
            name::equality_of_names_is_reflexive(column.0@);
        },
        Expr::Name(n) => {
            name::equality_of_names_is_reflexive(n.0@);
        },
        Expr::Qualified(table, column) => {
            name::equality_of_names_is_reflexive(table.0@);
            name::equality_of_names_is_reflexive(column.0@);
        },
        _ => {},
    }
}

#[verifier::rlimit(3)]
proof fn opt_name_reflexive(n: Option<Name>)
    ensures
        outcome::consistent(same::same_opt_name(n, n), Some(true)),
{
    if let Some(x) = n {
        name::equality_of_names_is_reflexive(x.0@);
    }
}

#[verifier::rlimit(3)]
proof fn qualified_reflexive(q: QualifiedName)
    ensures
        outcome::consistent(same::same_qualified(q, q), Some(true)),
{
    opt_name_reflexive(q.db_name);
    name::equality_of_names_is_reflexive(q.name.0@);
    opt_name_reflexive(q.alias);
}

#[verifier::rlimit(3)]
proof fn opt_expr_reflexive(e: Option<Box<Expr>>)
    ensures
        outcome::consistent(same::same_opt_expr(e, e), Some(true)),
    decreases e, 0nat,
{
    if let Some(x) = e {
        equality_is_reflexive(*x);
    }
}

#[verifier::rlimit(3)]
proof fn exprs_reflexive(s: Seq<Expr>, n: nat)
    ensures
        outcome::consistent(same::same_exprs(s, s, n), Some(true)),
    decreases s, n,
{
    if 0 < n <= s.len() {
        exprs_reflexive(s, (n - 1) as nat);
        equality_is_reflexive(s[n - 1]);
    }
}

#[verifier::rlimit(3)]
proof fn opt_exprs_reflexive(v: Option<Vec<Expr>>)
    ensures
        outcome::consistent(same::same_opt_exprs(v, v), Some(true)),
    decreases v, 0nat,
{
    if let Some(x) = v {
        exprs_reflexive(x@, x@.len());
    }
}

#[verifier::rlimit(3)]
proof fn pairs_reflexive(s: Seq<(Expr, Expr)>, n: nat)
    ensures
        outcome::consistent(same::same_pairs(s, s, n), Some(true)),
    decreases s, n,
{
    if 0 < n <= s.len() {
        pairs_reflexive(s, (n - 1) as nat);
        equality_is_reflexive(s[n - 1].0);
        equality_is_reflexive(s[n - 1].1);
    }
}

#[verifier::rlimit(3)]
proof fn sorted_reflexive(s: Seq<SortedColumn>, n: nat)
    ensures
        outcome::consistent(same::same_sorted(s, s, n), Some(true)),
    decreases s, n,
{
    if 0 < n <= s.len() {
        sorted_reflexive(s, (n - 1) as nat);
        equality_is_reflexive(s[n - 1].expr);
    }
}

#[verifier::rlimit(3)]
proof fn opt_sorted_reflexive(v: Option<Vec<SortedColumn>>)
    ensures
        outcome::consistent(same::same_opt_sorted(v, v), Some(true)),
    decreases v, 0nat,
{
    if let Some(x) = v {
        sorted_reflexive(x@, x@.len());
    }
}

#[verifier::rlimit(3)]
proof fn opt_tail_reflexive(t: Option<FunctionTail>)
    ensures
        outcome::consistent(same::same_opt_tail(t, t), Some(true)),
    decreases t, 0nat,
{
    if let Some(x) = t {
        opt_expr_reflexive(x.filter_clause);
        if let Some(over) = x.over_clause {
            over_reflexive(*over);
        }
    }
}

#[verifier::rlimit(3)]
proof fn over_reflexive(o: Over)
    ensures
        outcome::consistent(same::same_over(o, o), Some(true)),
    decreases o, 0nat,
{
    match o {
        Over::Window(w) => {
            window_reflexive(w);
        },
        Over::Name(n) => {
            name::equality_of_names_is_reflexive(n.0@);
        },
    }
}

#[verifier::rlimit(3)]
proof fn window_reflexive(w: Window)
    ensures
        outcome::consistent(same::same_window(w, w), Some(true)),
    decreases w, 0nat,
{
    opt_name_reflexive(w.base);
    opt_exprs_reflexive(w.partition_by);
    opt_sorted_reflexive(w.order_by);
    opt_frame_reflexive(w.frame_clause);
}

#[verifier::rlimit(3)]
proof fn opt_frame_reflexive(f: Option<FrameClause>)
    ensures
        outcome::consistent(same::same_opt_frame(f, f), Some(true)),
    decreases f, 0nat,
{
    if let Some(x) = f {
        bound_reflexive(x.start);
        if let Some(end) = x.end {
            bound_reflexive(end);
        }
    }
}

#[verifier::rlimit(3)]
proof fn bound_reflexive(b: FrameBound)
    ensures
        outcome::consistent(same::same_bound(b, b), Some(true)),
    decreases b, 0nat,
{
    match b {
        FrameBound::Following(x) => {
            equality_is_reflexive(*x);
        },
        FrameBound::Preceding(x) => {
            equality_is_reflexive(*x);
        },
        _ => {},
    }
}

#[verifier::rlimit(3)]
proof fn opt_type_reflexive(t: Option<Type>)
    ensures
        outcome::consistent(same::same_opt_type(t, t), Some(true)),
    decreases t, 0nat,
{
    if let Some(x) = t {
        match x.size {
            Some(TypeSize::MaxSize(e)) => {
                equality_is_reflexive(*e);
            },
            Some(TypeSize::TypeSize(e, f)) => {
                equality_is_reflexive(*e);
                equality_is_reflexive(*f);
            },
            None => {},
        }
    }
}

/// No numeric literal of the expression reads as NaN, which equals nothing, as
/// far as equivalence looks into it.
pub open spec fn reads_no_nan(e: Expr) -> bool
    decreases e, 0nat,
{
    match e {
        Expr::Between { lhs, start, end, .. } => {
            reads_no_nan(*lhs) && reads_no_nan(*start) && reads_no_nan(*end)
        },
        Expr::Binary(lhs, _, rhs) => reads_no_nan(*lhs) && reads_no_nan(*rhs),
        Expr::Case { when_then_pairs, .. } => pairs_read_no_nan(
            when_then_pairs@,
            when_then_pairs@.len(),
        ),
        Expr::Cast { expr, .. } => reads_no_nan(*expr),
        Expr::Collate(expr, _) => reads_no_nan(*expr),
        Expr::FunctionCallStar { filter_over: Some(tail), .. } => match tail.filter_clause {
            Some(filter) => reads_no_nan(*filter),
            None => true,
        },
        Expr::Literal(Literal::Numeric(n)) => match n.value {
            Some(bits) => !double::is_nan(bits),
            None => true,
        },
        Expr::IsNull(expr) => reads_no_nan(*expr),
        Expr::NotNull(expr) => reads_no_nan(*expr),
        Expr::Unary(_, expr) => reads_no_nan(*expr),
        Expr::Parenthesized(exprs) => list_reads_no_nan(exprs@, exprs@.len()),
        Expr::InList { lhs, rhs, .. } => reads_no_nan(*lhs) && match rhs {
            Some(list) => list_reads_no_nan(list@, list@.len()),
            None => true,
        },
        _ => true,
    }
}

/// No numeric literal of the first `n` expressions of a list reads as NaN.
pub open spec fn list_reads_no_nan(s: Seq<Expr>, n: nat) -> bool
    decreases s, n,
{
    0 < n <= s.len() ==> list_reads_no_nan(s, (n - 1) as nat) && reads_no_nan(s[n - 1])
}

/// No numeric literal of the first `n` pairs of a list reads as NaN.
pub open spec fn pairs_read_no_nan(s: Seq<(Expr, Expr)>, n: nat) -> bool
    decreases s, n,
{
    0 < n <= s.len() ==> pairs_read_no_nan(s, (n - 1) as nat) && reads_no_nan(s[n - 1].0)
        && reads_no_nan(s[n - 1].1)
}

/// An expression is equivalent to itself, wherever the comparison has an
/// outcome, unless a numeric literal of it reads as NaN.
#[verifier::rlimit(3)]
pub proof fn equivalence_is_reflexive(e: Expr)
    requires
        reads_no_nan(e),
    ensures
        outcome::consistent(equivalence::compare_exprs(e, e), Some(true)),
    decreases e, 1nat,
{
    if let Expr::Parenthesized(exprs) = e {
        list_equivalent_reflexive(exprs@, exprs@.len());
    } else {
        bare_equivalence_reflexive(e);
    }
}

#[verifier::rlimit(3)]
proof fn bare_equivalence_reflexive(e: Expr)
    requires
        reads_no_nan(e),
        e !is Parenthesized,
    ensures
        outcome::consistent(equivalence::compare_bare_exprs(e, e), Some(true)),
    decreases e, 0nat,
{
    match e {
        Expr::Between { lhs, start, end, .. } => {
            equivalence_is_reflexive(*lhs);
            equivalence_is_reflexive(*start);
            equivalence_is_reflexive(*end);
        },
        Expr::Binary(lhs, _, rhs) => {
            equivalence_is_reflexive(*lhs);
            equivalence_is_reflexive(*rhs);
        },
        Expr::Case { base, when_then_pairs, else_expr } => {
            opt_expr_reflexive(base);
            pairs_equivalent_reflexive(when_then_pairs@, when_then_pairs@.len());
            opt_expr_reflexive(else_expr);
        },
        Expr::Cast { expr, .. } => {
            equivalence_is_reflexive(*expr);
        },
        Expr::Collate(expr, _) => {
            equivalence_is_reflexive(*expr);
        },
        Expr::FunctionCall { args, order_by, filter_over, .. } => {
            opt_exprs_reflexive(args);
            opt_sorted_reflexive(order_by);
            opt_tail_reflexive(filter_over);
        },
        Expr::FunctionCallStar { filter_over, .. } => {
            if let Some(tail) = filter_over {
                if let Some(filter) = tail.filter_clause {
                    equivalence_is_reflexive(*filter);
                }
                if let Some(over) = tail.over_clause {
                    over_reflexive(*over);
                }
            }
        },
        Expr::IsNull(expr) => {
            equivalence_is_reflexive(*expr);
        },
        Expr::NotNull(expr) => {
            equivalence_is_reflexive(*expr);
        },
        Expr::Unary(_, expr) => {
            equivalence_is_reflexive(*expr);
        },
        Expr::InList { lhs, rhs, .. } => {
            equivalence_is_reflexive(*lhs);
            if let Some(list) = rhs {
                list_equivalent_reflexive(list@, list@.len());
            }
        },
        _ => {
            equality_is_reflexive(e);
        },
    }
}

#[verifier::rlimit(3)]
proof fn list_equivalent_reflexive(s: Seq<Expr>, n: nat)
    requires
        list_reads_no_nan(s, n),
    ensures
        outcome::consistent(equivalence::compare_lists(s, s, n), Some(true)),
    decreases s, n,
{
    if 0 < n <= s.len() {
        list_equivalent_reflexive(s, (n - 1) as nat);
        equivalence_is_reflexive(s[n - 1]);
    }
}

#[verifier::rlimit(3)]
proof fn pairs_equivalent_reflexive(s: Seq<(Expr, Expr)>, n: nat)
    requires
        pairs_read_no_nan(s, n),
    ensures
        outcome::consistent(equivalence::compare_pairs(s, s, n), Some(true)),
    decreases s, n,
{
    if 0 < n <= s.len() {
        pairs_equivalent_reflexive(s, (n - 1) as nat);
        equivalence_is_reflexive(s[n - 1].0);
        equivalence_is_reflexive(s[n - 1].1);
    }
}

} // verus!
