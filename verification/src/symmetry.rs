//! Equality and equivalence of expressions do not depend on which of the two
//! comes first.

use vstd::prelude::*;

use crate::ast::{
    Expr, FrameBound, FrameClause, FunctionTail, Name, Over, QualifiedName, SortedColumn, Type,
    TypeSize, Window,
};
use crate::equivalence;
use crate::name;
use crate::outcome;
use crate::same;

verus! {

/// Equality of two expressions does not depend on which comes first.
#[verifier::rlimit(3)]
pub proof fn equality_is_symmetric(a: Expr, b: Expr)
    ensures
        same::same_expr(a, b) == same::same_expr(b, a),
    decreases a, 0nat,
{
    match a {
        Expr::Between { lhs: l1, not: n1, start: s1, end: e1 } => {
            if let Expr::Between { lhs: l2, not: n2, start: s2, end: e2 } = b {
                equality_is_symmetric(*l1, *l2);
                equality_is_symmetric(*s1, *s2);
                equality_is_symmetric(*e1, *e2);
            }
        },
        Expr::Binary(l1, o1, r1) => {
            if let Expr::Binary(l2, o2, r2) = b {
                equality_is_symmetric(*l1, *l2);
                equality_is_symmetric(*r1, *r2);
            }
        },
        Expr::Case { base: b1, when_then_pairs: p1, else_expr: e1 } => {
            if let Expr::Case { base: b2, when_then_pairs: p2, else_expr: e2 } = b {
                opt_expr_symmetric(b1, b2);
                if p1@.len() == p2@.len() {
                    pairs_symmetric(p1@, p2@, p1@.len());
                }
                opt_expr_symmetric(e1, e2);
            }
        },
        Expr::Cast { expr: x1, target: t1 } => {
            if let Expr::Cast { expr: x2, target: t2 } = b {
                equality_is_symmetric(*x1, *x2);
                opt_type_symmetric(t1, t2);
            }
        },
        Expr::Collate(x1, _) => {
            if let Expr::Collate(x2, _) = b {
                equality_is_symmetric(*x1, *x2);
            }
        },
        Expr::FunctionCall { args: a1, order_by: o1, filter_over: f1, .. } => {
            if let Expr::FunctionCall { args: a2, order_by: o2, filter_over: f2, .. } = b {
                opt_exprs_symmetric(a1, a2);
                opt_sorted_symmetric(o1, o2);
                opt_tail_symmetric(f1, f2);
            }
        },
        Expr::FunctionCallStar { filter_over: f1, .. } => {
            if let Expr::FunctionCallStar { filter_over: f2, .. } = b {
                opt_tail_symmetric(f1, f2);
            }
        },
        Expr::InList { lhs: l1, rhs: r1, .. } => {
            if let Expr::InList { lhs: l2, rhs: r2, .. } = b {
                equality_is_symmetric(*l1, *l2);
                opt_exprs_symmetric(r1, r2);
            }
        },
        Expr::InSelect { lhs: l1, .. } => {
            if let Expr::InSelect { lhs: l2, .. } = b {
                equality_is_symmetric(*l1, *l2);
            }
        },
        Expr::InTable { lhs: l1, rhs: r1, args: a1, .. } => {
            if let Expr::InTable { lhs: l2, rhs: r2, args: a2, .. } = b {
                equality_is_symmetric(*l1, *l2);
                qualified_symmetric(r1, r2);
                opt_exprs_symmetric(a1, a2);
            }
        },
        Expr::IsNull(x1) => {
            if let Expr::IsNull(x2) = b {
                equality_is_symmetric(*x1, *x2);
            }
        },
        Expr::Like { lhs: l1, rhs: r1, escape: e1, .. } => {
            if let Expr::Like { lhs: l2, rhs: r2, escape: e2, .. } = b {
                equality_is_symmetric(*l1, *l2);
                equality_is_symmetric(*r1, *r2);
                opt_expr_symmetric(e1, e2);
            }
        },
        Expr::NotNull(x1) => {
            if let Expr::NotNull(x2) = b {
                equality_is_symmetric(*x1, *x2);
            }
        },
        Expr::Parenthesized(v1) => {
            if let Expr::Parenthesized(v2) = b {
                if v1@.len() == v2@.len() {
                    exprs_symmetric(v1@, v2@, v1@.len());
                }
            }
        },
        Expr::Raise(_, x1) => {
            if let Expr::Raise(_, x2) = b {
                opt_expr_symmetric(x1, x2);
            }
        },
        Expr::Unary(_, x1) => {
            if let Expr::Unary(_, x2) = b {
                equality_is_symmetric(*x1, *x2);
            }
        },
        Expr::DoublyQualified(s1, t1, c1) => {
            if let Expr::DoublyQualified(s2, t2, c2) = b {
                name::equality_of_names_is_symmetric(s1.0@, s2.0@);
                name::equality_of_names_is_symmetric(t1.0@, t2.0@);
                name::equality_of_names_is_symmetric(c1.0@, c2.0@);
            }
        },
        Expr::Name(n1) => {
            if let Expr::Name(n2) = b {
                name::equality_of_names_is_symmetric(n1.0@, n2.0@);
            }
        },
        Expr::Qualified(t1, c1) => {
            if let Expr::Qualified(t2, c2) = b {
                name::equality_of_names_is_symmetric(t1.0@, t2.0@);
                name::equality_of_names_is_symmetric(c1.0@, c2.0@);
            }
        },
        _ => {},
    }
}

#[verifier::rlimit(3)]
proof fn opt_name_symmetric(a: Option<Name>, b: Option<Name>)
    ensures
        same::same_opt_name(a, b) == same::same_opt_name(b, a),
{
    if let (Some(x), Some(y)) = (a, b) {
        name::equality_of_names_is_symmetric(x.0@, y.0@);
    }
}

#[verifier::rlimit(3)]
proof fn qualified_symmetric(a: QualifiedName, b: QualifiedName)
    ensures
        same::same_qualified(a, b) == same::same_qualified(b, a),
{
    opt_name_symmetric(a.db_name, b.db_name);
    name::equality_of_names_is_symmetric(a.name.0@, b.name.0@);
    opt_name_symmetric(a.alias, b.alias);
}

#[verifier::rlimit(3)]
pub(crate) proof fn opt_expr_symmetric(a: Option<Box<Expr>>, b: Option<Box<Expr>>)
    ensures
        same::same_opt_expr(a, b) == same::same_opt_expr(b, a),
    decreases a, 0nat,
{
    if let (Some(x), Some(y)) = (a, b) {
        equality_is_symmetric(*x, *y);
    }
}

#[verifier::rlimit(3)]
proof fn exprs_symmetric(a: Seq<Expr>, b: Seq<Expr>, n: nat)
    ensures
        same::same_exprs(a, b, n) == same::same_exprs(b, a, n),
    decreases a, n,
{
    if 0 < n <= a.len() && n <= b.len() {
        exprs_symmetric(a, b, (n - 1) as nat);
        equality_is_symmetric(a[n - 1], b[n - 1]);
    }
}

#[verifier::rlimit(3)]
pub(crate) proof fn opt_exprs_symmetric(a: Option<Vec<Expr>>, b: Option<Vec<Expr>>)
    ensures
        same::same_opt_exprs(a, b) == same::same_opt_exprs(b, a),
    decreases a, 0nat,
{
    if let (Some(x), Some(y)) = (a, b) {
        if x@.len() == y@.len() {
            exprs_symmetric(x@, y@, x@.len());
        }
    }
}

#[verifier::rlimit(3)]
proof fn pairs_symmetric(a: Seq<(Expr, Expr)>, b: Seq<(Expr, Expr)>, n: nat)
    ensures
        same::same_pairs(a, b, n) == same::same_pairs(b, a, n),
    decreases a, n,
{
    if 0 < n <= a.len() && n <= b.len() {
        pairs_symmetric(a, b, (n - 1) as nat);
        equality_is_symmetric(a[n - 1].0, b[n - 1].0);
        equality_is_symmetric(a[n - 1].1, b[n - 1].1);
    }
}

#[verifier::rlimit(3)]
proof fn sorted_symmetric(a: Seq<SortedColumn>, b: Seq<SortedColumn>, n: nat)
    ensures
        same::same_sorted(a, b, n) == same::same_sorted(b, a, n),
    decreases a, n,
{
    if 0 < n <= a.len() && n <= b.len() {
        sorted_symmetric(a, b, (n - 1) as nat);
        equality_is_symmetric(a[n - 1].expr, b[n - 1].expr);
    }
}

#[verifier::rlimit(3)]
pub(crate) proof fn opt_sorted_symmetric(a: Option<Vec<SortedColumn>>, b: Option<Vec<SortedColumn>>)
    ensures
        same::same_opt_sorted(a, b) == same::same_opt_sorted(b, a),
    decreases a, 0nat,
{
    if let (Some(x), Some(y)) = (a, b) {
        if x@.len() == y@.len() {
            sorted_symmetric(x@, y@, x@.len());
        }
    }
}

#[verifier::rlimit(3)]
pub(crate) proof fn opt_tail_symmetric(a: Option<FunctionTail>, b: Option<FunctionTail>)
    ensures
        same::same_opt_tail(a, b) == same::same_opt_tail(b, a),
    decreases a, 0nat,
{
    if let (Some(x), Some(y)) = (a, b) {
        opt_expr_symmetric(x.filter_clause, y.filter_clause);
        opt_over_symmetric(x.over_clause, y.over_clause);
    }
}

#[verifier::rlimit(3)]
pub(crate) proof fn opt_over_symmetric(a: Option<Box<Over>>, b: Option<Box<Over>>)
    ensures
        same::same_opt_over(a, b) == same::same_opt_over(b, a),
    decreases a, 0nat,
{
    if let (Some(x), Some(y)) = (a, b) {
        over_symmetric(*x, *y);
    }
}

#[verifier::rlimit(3)]
proof fn over_symmetric(a: Over, b: Over)
    ensures
        same::same_over(a, b) == same::same_over(b, a),
    decreases a, 0nat,
{
    match (a, b) {
        (Over::Window(x), Over::Window(y)) => {
            window_symmetric(x, y);
        },
        (Over::Name(x), Over::Name(y)) => {
            name::equality_of_names_is_symmetric(x.0@, y.0@);
        },
        _ => {},
    }
}

#[verifier::rlimit(3)]
proof fn window_symmetric(a: Window, b: Window)
    ensures
        same::same_window(a, b) == same::same_window(b, a),
    decreases a, 0nat,
{
    opt_name_symmetric(a.base, b.base);
    opt_exprs_symmetric(a.partition_by, b.partition_by);
    opt_sorted_symmetric(a.order_by, b.order_by);
    opt_frame_symmetric(a.frame_clause, b.frame_clause);
}

#[verifier::rlimit(3)]
proof fn opt_frame_symmetric(a: Option<FrameClause>, b: Option<FrameClause>)
    ensures
        same::same_opt_frame(a, b) == same::same_opt_frame(b, a),
    decreases a, 0nat,
{
    if let (Some(x), Some(y)) = (a, b) {
        bound_symmetric(x.start, y.start);
        if let (Some(s), Some(t)) = (x.end, y.end) {
            bound_symmetric(s, t);
        }
    }
}

#[verifier::rlimit(3)]
proof fn bound_symmetric(a: FrameBound, b: FrameBound)
    ensures
        same::same_bound(a, b) == same::same_bound(b, a),
    decreases a, 0nat,
{
    match (a, b) {
        (FrameBound::Following(x), FrameBound::Following(y)) => {
            equality_is_symmetric(*x, *y);
        },
        (FrameBound::Preceding(x), FrameBound::Preceding(y)) => {
            equality_is_symmetric(*x, *y);
        },
        _ => {},
    }
}

#[verifier::rlimit(3)]
proof fn opt_type_symmetric(a: Option<Type>, b: Option<Type>)
    ensures
        same::same_opt_type(a, b) == same::same_opt_type(b, a),
    decreases a, 0nat,
{
    if let (Some(x), Some(y)) = (a, b) {
        opt_size_symmetric(x.size, y.size);
    }
}

#[verifier::rlimit(3)]
proof fn opt_size_symmetric(a: Option<TypeSize>, b: Option<TypeSize>)
    ensures
        same::same_opt_size(a, b) == same::same_opt_size(b, a),
    decreases a, 0nat,
{
    match (a, b) {
        (Some(TypeSize::MaxSize(x)), Some(TypeSize::MaxSize(y))) => {
            equality_is_symmetric(*x, *y);
        },
        (Some(TypeSize::TypeSize(x, s)), Some(TypeSize::TypeSize(y, t))) => {
            equality_is_symmetric(*x, *y);
            equality_is_symmetric(*s, *t);
        },
        _ => {},
    }
}

/// Equivalence of two expressions does not depend on which comes first: where
/// both comparisons have an outcome, it is the same.
#[verifier::rlimit(3)]
pub proof fn equivalence_is_symmetric(a: Expr, b: Expr)
    ensures
        outcome::consistent(equivalence::compare_exprs(a, b), equivalence::compare_exprs(b, a)),
    decreases equivalence::size(a) + equivalence::size(b), 2nat,
{
    match a {
        Expr::Parenthesized(v1) => match b {
            Expr::Parenthesized(v2) => {
                if v1@.len() == v2@.len() {
                    lists_equivalent_symmetric(v1@, v2@, v1@.len());
                }
            },
            _ => {},
        },
        _ => match b {
            Expr::Parenthesized(v2) => {},
            _ => {
                bare_equivalence_symmetric(a, b);
            },
        },
    }
}

#[verifier::rlimit(3)]
proof fn bare_equivalence_symmetric(a: Expr, b: Expr)
    requires
        a !is Parenthesized,
        b !is Parenthesized,
    ensures
        outcome::consistent(
            equivalence::compare_bare_exprs(a, b),
            equivalence::compare_bare_exprs(b, a),
        ),
    decreases equivalence::size(a) + equivalence::size(b), 1nat,
{
    if a is Between && b is Between {
        between_symmetric(a, b);
    } else if a is Binary && b is Binary {
        binary_symmetric(a, b);
    } else if a is Case && b is Case {
        case_symmetric(a, b);
    } else if a is Cast && b is Cast {
        cast_symmetric(a, b);
    } else if a is Collate && b is Collate {
        collate_symmetric(a, b);
    } else if a is FunctionCall && b is FunctionCall {
        call_symmetric(a, b);
    } else if a is FunctionCallStar && b is FunctionCallStar {
        call_star_symmetric(a, b);
    } else if a is NotNull && b is NotNull {
        not_null_symmetric(a, b);
    } else if a is IsNull && b is IsNull {
        is_null_symmetric(a, b);
    } else if a is Unary && b is Unary {
        unary_symmetric(a, b);
    } else if a is InList && b is InList {
        in_list_symmetric(a, b);
    } else {
        equality_is_symmetric(a, b);
    }
}

#[verifier::rlimit(3)]
proof fn between_symmetric(a: Expr, b: Expr)
    requires
        a is Between,
        b is Between,
    ensures
        outcome::consistent(
            equivalence::compare_bare_exprs(a, b),
            equivalence::compare_bare_exprs(b, a),
        ),
    decreases equivalence::size(a) + equivalence::size(b), 0nat,
{
    if let Expr::Between { lhs: l1, start: s1, end: e1, .. } = a {
        if let Expr::Between { lhs: l2, start: s2, end: e2, .. } = b {
            equivalence_is_symmetric(*l1, *l2);
            equivalence_is_symmetric(*s1, *s2);
            equivalence_is_symmetric(*e1, *e2);
        }
    }
}

#[verifier::rlimit(3)]
proof fn binary_symmetric(a: Expr, b: Expr)
    requires
        a is Binary,
        b is Binary,
    ensures
        outcome::consistent(
            equivalence::compare_bare_exprs(a, b),
            equivalence::compare_bare_exprs(b, a),
        ),
    decreases equivalence::size(a) + equivalence::size(b), 0nat,
{
    if let Expr::Binary(l1, o1, r1) = a {
        if let Expr::Binary(l2, o2, r2) = b {
            equivalence_is_symmetric(*l1, *l2);
            equivalence_is_symmetric(*r1, *r2);
            equivalence_is_symmetric(*l1, *r2);
            equivalence_is_symmetric(*r1, *l2);
            lemma_crosswise(
                equivalence::compare_exprs(*l1, *l2),
                equivalence::compare_exprs(*l2, *l1),
                equivalence::compare_exprs(*r1, *r2),
                equivalence::compare_exprs(*r2, *r1),
                equivalence::compare_exprs(*l1, *r2),
                equivalence::compare_exprs(*r2, *l1),
                equivalence::compare_exprs(*r1, *l2),
                equivalence::compare_exprs(*l2, *r1),
                o1.commutes(),
            );
        }
    }
}

#[verifier::rlimit(3)]
proof fn lemma_crosswise(
    ll: Option<bool>,
    ll_back: Option<bool>,
    rr: Option<bool>,
    rr_back: Option<bool>,
    lr: Option<bool>,
    lr_back: Option<bool>,
    rl: Option<bool>,
    rl_back: Option<bool>,
    commutes: bool,
)
    requires
        outcome::consistent(ll, ll_back),
        outcome::consistent(rr, rr_back),
        outcome::consistent(lr, lr_back),
        outcome::consistent(rl, rl_back),
    ensures
        outcome::consistent(
            outcome::either(
                outcome::both(ll, rr),
                outcome::both(Some(commutes), outcome::both(lr, rl)),
            ),
            outcome::either(
                outcome::both(ll_back, rr_back),
                outcome::both(Some(commutes), outcome::both(rl_back, lr_back)),
            ),
        ),
{
}

#[verifier::rlimit(3)]
proof fn case_symmetric(a: Expr, b: Expr)
    requires
        a is Case,
        b is Case,
    ensures
        outcome::consistent(
            equivalence::compare_bare_exprs(a, b),
            equivalence::compare_bare_exprs(b, a),
        ),
    decreases equivalence::size(a) + equivalence::size(b), 0nat,
{
    if let Expr::Case { base: b1, when_then_pairs: p1, else_expr: e1 } = a {
        if let Expr::Case { base: b2, when_then_pairs: p2, else_expr: e2 } = b {
            opt_expr_symmetric(b1, b2);
            if p1@.len() == p2@.len() {
                pairs_equivalent_symmetric(p1@, p2@, p1@.len());
            }
            opt_expr_symmetric(e1, e2);
        }
    }
}

#[verifier::rlimit(3)]
proof fn cast_symmetric(a: Expr, b: Expr)
    requires
        a is Cast,
        b is Cast,
    ensures
        outcome::consistent(
            equivalence::compare_bare_exprs(a, b),
            equivalence::compare_bare_exprs(b, a),
        ),
    decreases equivalence::size(a) + equivalence::size(b), 0nat,
{
    if let Expr::Cast { expr: x1, .. } = a {
        if let Expr::Cast { expr: x2, .. } = b {
            equivalence_is_symmetric(*x1, *x2);
        }
    }
}

#[verifier::rlimit(3)]
proof fn collate_symmetric(a: Expr, b: Expr)
    requires
        a is Collate,
        b is Collate,
    ensures
        outcome::consistent(
            equivalence::compare_bare_exprs(a, b),
            equivalence::compare_bare_exprs(b, a),
        ),
    decreases equivalence::size(a) + equivalence::size(b), 0nat,
{
    if let Expr::Collate(x1, _) = a {
        if let Expr::Collate(x2, _) = b {
            equivalence_is_symmetric(*x1, *x2);
        }
    }
}

#[verifier::rlimit(3)]
proof fn call_symmetric(a: Expr, b: Expr)
    requires
        a is FunctionCall,
        b is FunctionCall,
    ensures
        outcome::consistent(
            equivalence::compare_bare_exprs(a, b),
            equivalence::compare_bare_exprs(b, a),
        ),
    decreases equivalence::size(a) + equivalence::size(b), 0nat,
{
    if let Expr::FunctionCall { args: a1, order_by: o1, filter_over: f1, .. } = a {
        if let Expr::FunctionCall { args: a2, order_by: o2, filter_over: f2, .. } = b {
            opt_exprs_symmetric(a1, a2);
            opt_sorted_symmetric(o1, o2);
            opt_tail_symmetric(f1, f2);
        }
    }
}

#[verifier::rlimit(3)]
proof fn call_star_symmetric(a: Expr, b: Expr)
    requires
        a is FunctionCallStar,
        b is FunctionCallStar,
    ensures
        outcome::consistent(
            equivalence::compare_bare_exprs(a, b),
            equivalence::compare_bare_exprs(b, a),
        ),
    decreases equivalence::size(a) + equivalence::size(b), 0nat,
{
    if let Expr::FunctionCallStar { filter_over: f1, .. } = a {
        if let Expr::FunctionCallStar { filter_over: f2, .. } = b {
            if let (Some(t1), Some(t2)) = (f1, f2) {
                if let (Some(c1), Some(c2)) = (t1.filter_clause, t2.filter_clause) {
                    equivalence_is_symmetric(*c1, *c2);
                }
                opt_over_symmetric(t1.over_clause, t2.over_clause);
            }
        }
    }
}

#[verifier::rlimit(3)]
proof fn not_null_symmetric(a: Expr, b: Expr)
    requires
        a is NotNull,
        b is NotNull,
    ensures
        outcome::consistent(
            equivalence::compare_bare_exprs(a, b),
            equivalence::compare_bare_exprs(b, a),
        ),
    decreases equivalence::size(a) + equivalence::size(b), 0nat,
{
    if let Expr::NotNull(x1) = a {
        if let Expr::NotNull(x2) = b {
            equivalence_is_symmetric(*x1, *x2);
        }
    }
}

#[verifier::rlimit(3)]
proof fn is_null_symmetric(a: Expr, b: Expr)
    requires
        a is IsNull,
        b is IsNull,
    ensures
        outcome::consistent(
            equivalence::compare_bare_exprs(a, b),
            equivalence::compare_bare_exprs(b, a),
        ),
    decreases equivalence::size(a) + equivalence::size(b), 0nat,
{
    if let Expr::IsNull(x1) = a {
        if let Expr::IsNull(x2) = b {
            equivalence_is_symmetric(*x1, *x2);
        }
    }
}

#[verifier::rlimit(3)]
proof fn unary_symmetric(a: Expr, b: Expr)
    requires
        a is Unary,
        b is Unary,
    ensures
        outcome::consistent(
            equivalence::compare_bare_exprs(a, b),
            equivalence::compare_bare_exprs(b, a),
        ),
    decreases equivalence::size(a) + equivalence::size(b), 0nat,
{
    if let Expr::Unary(_, x1) = a {
        if let Expr::Unary(_, x2) = b {
            equivalence_is_symmetric(*x1, *x2);
        }
    }
}

#[verifier::rlimit(3)]
proof fn in_list_symmetric(a: Expr, b: Expr)
    requires
        a is InList,
        b is InList,
    ensures
        outcome::consistent(
            equivalence::compare_bare_exprs(a, b),
            equivalence::compare_bare_exprs(b, a),
        ),
    decreases equivalence::size(a) + equivalence::size(b), 0nat,
{
    if let Expr::InList { lhs: l1, rhs: r1, .. } = a {
        if let Expr::InList { lhs: l2, rhs: r2, .. } = b {
            equivalence_is_symmetric(*l1, *l2);
            if let (Some(v1), Some(v2)) = (r1, r2) {
                if v1@.len() == v2@.len() {
                    lists_equivalent_symmetric(v1@, v2@, v1@.len());
                }
            }
        }
    }
}

#[verifier::rlimit(3)]
proof fn lists_equivalent_symmetric(a: Seq<Expr>, b: Seq<Expr>, n: nat)
    ensures
        outcome::consistent(
            equivalence::compare_lists(a, b, n),
            equivalence::compare_lists(b, a, n),
        ),
    decreases equivalence::size_of_list(a, n) + equivalence::size_of_list(b, n), 3nat,
{
    if 0 < n <= a.len() && n <= b.len() {
        equivalence::lemma_size_positive(a[n - 1]);
        lists_equivalent_symmetric(a, b, (n - 1) as nat);
        equivalence_is_symmetric(a[n - 1], b[n - 1]);
    }
}

#[verifier::rlimit(3)]
proof fn pairs_equivalent_symmetric(a: Seq<(Expr, Expr)>, b: Seq<(Expr, Expr)>, n: nat)
    ensures
        outcome::consistent(
            equivalence::compare_pairs(a, b, n),
            equivalence::compare_pairs(b, a, n),
        ),
    decreases equivalence::size_of_pairs(a, n) + equivalence::size_of_pairs(b, n), 3nat,
{
    if 0 < n <= a.len() && n <= b.len() {
        equivalence::lemma_size_positive(a[n - 1].0);
        pairs_equivalent_symmetric(a, b, (n - 1) as nat);
        equivalence_is_symmetric(a[n - 1].0, b[n - 1].0);
        equivalence_is_symmetric(a[n - 1].1, b[n - 1].1);
    }
}

} // verus!
