//! What equals, or is equivalent to, the same expression does so among itself.

use vstd::prelude::*;

use crate::ast::{
    Expr, FrameBound, FrameClause, FunctionTail, Literal, Name, Over, QualifiedName, SortedColumn,
    Type, TypeSize, Window,
};
use crate::equivalence;
use crate::name;
use crate::outcome;
use crate::rewriting;
use crate::same;
use crate::symmetry;

verus! {

/// Two expressions that equal a third one equal each other.
#[verifier::rlimit(3)]
pub proof fn equality_is_transitive(a: Expr, b: Expr, c: Expr)
    requires
        same::same_expr(a, b) == Some(true),
        same::same_expr(b, c) == Some(true),
    ensures
        same::same_expr(a, c) == Some(true),
    decreases a, 0nat,
{
    match a {
        Expr::Between { lhs: l1, start: s1, end: e1, .. } => {
            if let Expr::Between { lhs: l2, start: s2, end: e2, .. } = b {
                if let Expr::Between { lhs: l3, start: s3, end: e3, .. } = c {
                    equality_is_transitive(*l1, *l2, *l3);
                    equality_is_transitive(*s1, *s2, *s3);
                    equality_is_transitive(*e1, *e2, *e3);
                }
            }
        },
        Expr::Binary(l1, _, r1) => {
            if let Expr::Binary(l2, _, r2) = b {
                if let Expr::Binary(l3, _, r3) = c {
                    equality_is_transitive(*l1, *l2, *l3);
                    equality_is_transitive(*r1, *r2, *r3);
                }
            }
        },
        Expr::Case { base: b1, when_then_pairs: p1, else_expr: e1 } => {
            if let Expr::Case { base: b2, when_then_pairs: p2, else_expr: e2 } = b {
                if let Expr::Case { base: b3, when_then_pairs: p3, else_expr: e3 } = c {
                    opt_expr_transitive(b1, b2, b3);
                    pairs_transitive(p1@, p2@, p3@, p1@.len());
                    opt_expr_transitive(e1, e2, e3);
                }
            }
        },
        Expr::Cast { expr: x1, target: t1 } => {
            if let Expr::Cast { expr: x2, target: t2 } = b {
                if let Expr::Cast { expr: x3, target: t3 } = c {
                    equality_is_transitive(*x1, *x2, *x3);
                    opt_type_transitive(t1, t2, t3);
                }
            }
        },
        Expr::Collate(x1, _) => {
            if let Expr::Collate(x2, _) = b {
                if let Expr::Collate(x3, _) = c {
                    equality_is_transitive(*x1, *x2, *x3);
                }
            }
        },
        Expr::FunctionCall { args: a1, order_by: o1, filter_over: f1, .. } => {
            if let Expr::FunctionCall { args: a2, order_by: o2, filter_over: f2, .. } = b {
                if let Expr::FunctionCall { args: a3, order_by: o3, filter_over: f3, .. } = c {
                    opt_exprs_transitive(a1, a2, a3);
                    opt_sorted_transitive(o1, o2, o3);
                    opt_tail_transitive(f1, f2, f3);
                }
            }
        },
        Expr::FunctionCallStar { filter_over: f1, .. } => {
            if let Expr::FunctionCallStar { filter_over: f2, .. } = b {
                if let Expr::FunctionCallStar { filter_over: f3, .. } = c {
                    opt_tail_transitive(f1, f2, f3);
                }
            }
        },
        Expr::InList { lhs: l1, rhs: r1, .. } => {
            if let Expr::InList { lhs: l2, rhs: r2, .. } = b {
                if let Expr::InList { lhs: l3, rhs: r3, .. } = c {
                    equality_is_transitive(*l1, *l2, *l3);
                    opt_exprs_transitive(r1, r2, r3);
                }
            }
        },
        Expr::InSelect { lhs: l1, .. } => {
            if let Expr::InSelect { lhs: l2, .. } = b {
                if let Expr::InSelect { lhs: l3, .. } = c {
                    equality_is_transitive(*l1, *l2, *l3);
                }
            }
        },
        Expr::InTable { lhs: l1, rhs: r1, args: a1, .. } => {
            if let Expr::InTable { lhs: l2, rhs: r2, args: a2, .. } = b {
                if let Expr::InTable { lhs: l3, rhs: r3, args: a3, .. } = c {
                    equality_is_transitive(*l1, *l2, *l3);
                    qualified_transitive(r1, r2, r3);
                    opt_exprs_transitive(a1, a2, a3);
                }
            }
        },
        Expr::IsNull(x1) => {
            if let Expr::IsNull(x2) = b {
                if let Expr::IsNull(x3) = c {
                    equality_is_transitive(*x1, *x2, *x3);
                }
            }
        },
        Expr::Like { lhs: l1, rhs: r1, escape: e1, .. } => {
            if let Expr::Like { lhs: l2, rhs: r2, escape: e2, .. } = b {
                if let Expr::Like { lhs: l3, rhs: r3, escape: e3, .. } = c {
                    equality_is_transitive(*l1, *l2, *l3);
                    equality_is_transitive(*r1, *r2, *r3);
                    opt_expr_transitive(e1, e2, e3);
                }
            }
        },
        Expr::NotNull(x1) => {
            if let Expr::NotNull(x2) = b {
                if let Expr::NotNull(x3) = c {
                    equality_is_transitive(*x1, *x2, *x3);
                }
            }
        },
        Expr::Parenthesized(v1) => {
            if let Expr::Parenthesized(v2) = b {
                if let Expr::Parenthesized(v3) = c {
                    exprs_transitive(v1@, v2@, v3@, v1@.len());
                }
            }
        },
        Expr::Raise(_, x1) => {
            if let Expr::Raise(_, x2) = b {
                if let Expr::Raise(_, x3) = c {
                    opt_expr_transitive(x1, x2, x3);
                }
            }
        },
        Expr::Unary(_, x1) => {
            if let Expr::Unary(_, x2) = b {
                if let Expr::Unary(_, x3) = c {
                    equality_is_transitive(*x1, *x2, *x3);
                }
            }
        },
        Expr::DoublyQualified(s1, t1, c1) => {
            if let Expr::DoublyQualified(s2, t2, c2) = b {
                if let Expr::DoublyQualified(s3, t3, c3) = c {
                    name::equality_of_names_is_transitive(s1.0@, s2.0@, s3.0@);
                    name::equality_of_names_is_transitive(t1.0@, t2.0@, t3.0@);
                    name::equality_of_names_is_transitive(c1.0@, c2.0@, c3.0@);
                }
            }
        },
        Expr::Name(n1) => {
            if let Expr::Name(n2) = b {
                if let Expr::Name(n3) = c {
                    name::equality_of_names_is_transitive(n1.0@, n2.0@, n3.0@);
                }
            }
        },
        Expr::Qualified(t1, c1) => {
            if let Expr::Qualified(t2, c2) = b {
                if let Expr::Qualified(t3, c3) = c {
                    name::equality_of_names_is_transitive(t1.0@, t2.0@, t3.0@);
                    name::equality_of_names_is_transitive(c1.0@, c2.0@, c3.0@);
                }
            }
        },
        _ => {},
    }
}

#[verifier::rlimit(3)]
proof fn opt_name_transitive(a: Option<Name>, b: Option<Name>, c: Option<Name>)
    requires
        same::same_opt_name(a, b) == Some(true),
        same::same_opt_name(b, c) == Some(true),
    ensures
        same::same_opt_name(a, c) == Some(true),
{
    if let Some(x) = a {
        let y = b->0;
        let z = c->0;
        name::equality_of_names_is_transitive(x.0@, y.0@, z.0@);
    }
}

#[verifier::rlimit(3)]
proof fn qualified_transitive(a: QualifiedName, b: QualifiedName, c: QualifiedName)
    requires
        same::same_qualified(a, b) == Some(true),
        same::same_qualified(b, c) == Some(true),
    ensures
        same::same_qualified(a, c) == Some(true),
{
    opt_name_transitive(a.db_name, b.db_name, c.db_name);
    name::equality_of_names_is_transitive(a.name.0@, b.name.0@, c.name.0@);
    opt_name_transitive(a.alias, b.alias, c.alias);
}

#[verifier::rlimit(3)]
proof fn opt_expr_transitive(
    a: Option<Box<Expr>>,
    b: Option<Box<Expr>>,
    c: Option<Box<Expr>>,
)
    requires
        same::same_opt_expr(a, b) == Some(true),
        same::same_opt_expr(b, c) == Some(true),
    ensures
        same::same_opt_expr(a, c) == Some(true),
    decreases a, 0nat,
{
    if let Some(x) = a {
        equality_is_transitive(*x, *b->0, *c->0);
    }
}

#[verifier::rlimit(3)]
proof fn exprs_transitive(a: Seq<Expr>, b: Seq<Expr>, c: Seq<Expr>, n: nat)
    requires
        n <= a.len() == b.len() == c.len(),
        same::same_exprs(a, b, n) == Some(true),
        same::same_exprs(b, c, n) == Some(true),
    ensures
        same::same_exprs(a, c, n) == Some(true),
    decreases a, n,
{
    if n > 0 {
        exprs_transitive(a, b, c, (n - 1) as nat);
        equality_is_transitive(a[n - 1], b[n - 1], c[n - 1]);
    }
}

#[verifier::rlimit(3)]
proof fn opt_exprs_transitive(a: Option<Vec<Expr>>, b: Option<Vec<Expr>>, c: Option<Vec<Expr>>)
    requires
        same::same_opt_exprs(a, b) == Some(true),
        same::same_opt_exprs(b, c) == Some(true),
    ensures
        same::same_opt_exprs(a, c) == Some(true),
    decreases a, 0nat,
{
    if let Some(x) = a {
        exprs_transitive(x@, b->0@, c->0@, x@.len());
    }
}

#[verifier::rlimit(3)]
proof fn pairs_transitive(
    a: Seq<(Expr, Expr)>,
    b: Seq<(Expr, Expr)>,
    c: Seq<(Expr, Expr)>,
    n: nat,
)
    requires
        n <= a.len() == b.len() == c.len(),
        same::same_pairs(a, b, n) == Some(true),
        same::same_pairs(b, c, n) == Some(true),
    ensures
        same::same_pairs(a, c, n) == Some(true),
    decreases a, n,
{
    if n > 0 {
        pairs_transitive(a, b, c, (n - 1) as nat);
        equality_is_transitive(a[n - 1].0, b[n - 1].0, c[n - 1].0);
        equality_is_transitive(a[n - 1].1, b[n - 1].1, c[n - 1].1);
    }
}

#[verifier::rlimit(3)]
proof fn sorted_transitive(
    a: Seq<SortedColumn>,
    b: Seq<SortedColumn>,
    c: Seq<SortedColumn>,
    n: nat,
)
    requires
        n <= a.len() == b.len() == c.len(),
        same::same_sorted(a, b, n) == Some(true),
        same::same_sorted(b, c, n) == Some(true),
    ensures
        same::same_sorted(a, c, n) == Some(true),
    decreases a, n,
{
    if n > 0 {
        sorted_transitive(a, b, c, (n - 1) as nat);
        equality_is_transitive(a[n - 1].expr, b[n - 1].expr, c[n - 1].expr);
    }
}

#[verifier::rlimit(3)]
proof fn opt_sorted_transitive(
    a: Option<Vec<SortedColumn>>,
    b: Option<Vec<SortedColumn>>,
    c: Option<Vec<SortedColumn>>,
)
    requires
        same::same_opt_sorted(a, b) == Some(true),
        same::same_opt_sorted(b, c) == Some(true),
    ensures
        same::same_opt_sorted(a, c) == Some(true),
    decreases a, 0nat,
{
    if let Some(x) = a {
        sorted_transitive(x@, b->0@, c->0@, x@.len());
    }
}

#[verifier::rlimit(3)]
proof fn opt_tail_transitive(
    a: Option<FunctionTail>,
    b: Option<FunctionTail>,
    c: Option<FunctionTail>,
)
    requires
        same::same_opt_tail(a, b) == Some(true),
        same::same_opt_tail(b, c) == Some(true),
    ensures
        same::same_opt_tail(a, c) == Some(true),
    decreases a, 0nat,
{
    if let Some(x) = a {
        let y = b->0;
        let z = c->0;
        opt_expr_transitive(x.filter_clause, y.filter_clause, z.filter_clause);
        opt_over_transitive(x.over_clause, y.over_clause, z.over_clause);
    }
}

#[verifier::rlimit(3)]
proof fn opt_over_transitive(a: Option<Box<Over>>, b: Option<Box<Over>>, c: Option<Box<Over>>)
    requires
        same::same_opt_over(a, b) == Some(true),
        same::same_opt_over(b, c) == Some(true),
    ensures
        same::same_opt_over(a, c) == Some(true),
    decreases a, 0nat,
{
    if let Some(x) = a {
        over_transitive(*x, *b->0, *c->0);
    }
}

#[verifier::rlimit(3)]
proof fn over_transitive(a: Over, b: Over, c: Over)
    requires
        same::same_over(a, b) == Some(true),
        same::same_over(b, c) == Some(true),
    ensures
        same::same_over(a, c) == Some(true),
    decreases a, 0nat,
{
    match a {
        Over::Window(x) => {
            window_transitive(x, b->Window_0, c->Window_0);
        },
        Over::Name(n) => {
            let m = b->Name_0;
            let l = c->Name_0;
            name::equality_of_names_is_transitive(n.0@, m.0@, l.0@);
        },
    }
}

#[verifier::rlimit(3)]
proof fn window_transitive(a: Window, b: Window, c: Window)
    requires
        same::same_window(a, b) == Some(true),
        same::same_window(b, c) == Some(true),
    ensures
        same::same_window(a, c) == Some(true),
    decreases a, 0nat,
{
    opt_name_transitive(a.base, b.base, c.base);
    opt_exprs_transitive(a.partition_by, b.partition_by, c.partition_by);
    opt_sorted_transitive(a.order_by, b.order_by, c.order_by);
    opt_frame_transitive(a.frame_clause, b.frame_clause, c.frame_clause);
}

#[verifier::rlimit(3)]
proof fn opt_frame_transitive(
    a: Option<FrameClause>,
    b: Option<FrameClause>,
    c: Option<FrameClause>,
)
    requires
        same::same_opt_frame(a, b) == Some(true),
        same::same_opt_frame(b, c) == Some(true),
    ensures
        same::same_opt_frame(a, c) == Some(true),
    decreases a, 0nat,
{
    if let Some(x) = a {
        let y = b->0;
        let z = c->0;
        bound_transitive(x.start, y.start, z.start);
        if let Some(end) = x.end {
            bound_transitive(end, y.end->0, z.end->0);
        }
    }
}

#[verifier::rlimit(3)]
proof fn bound_transitive(a: FrameBound, b: FrameBound, c: FrameBound)
    requires
        same::same_bound(a, b) == Some(true),
        same::same_bound(b, c) == Some(true),
    ensures
        same::same_bound(a, c) == Some(true),
    decreases a, 0nat,
{
    match a {
        FrameBound::Following(x) => {
            equality_is_transitive(*x, *b->Following_0, *c->Following_0);
        },
        FrameBound::Preceding(x) => {
            equality_is_transitive(*x, *b->Preceding_0, *c->Preceding_0);
        },
        _ => {},
    }
}

#[verifier::rlimit(3)]
proof fn opt_type_transitive(a: Option<Type>, b: Option<Type>, c: Option<Type>)
    requires
        same::same_opt_type(a, b) == Some(true),
        same::same_opt_type(b, c) == Some(true),
    ensures
        same::same_opt_type(a, c) == Some(true),
    decreases a, 0nat,
{
    if let Some(x) = a {
        opt_size_transitive(x.size, b->0.size, c->0.size);
    }
}

#[verifier::rlimit(3)]
proof fn opt_size_transitive(a: Option<TypeSize>, b: Option<TypeSize>, c: Option<TypeSize>)
    requires
        same::same_opt_size(a, b) == Some(true),
        same::same_opt_size(b, c) == Some(true),
    ensures
        same::same_opt_size(a, c) == Some(true),
    decreases a, 0nat,
{
    match a {
        Some(TypeSize::MaxSize(x)) => {
            if let Some(TypeSize::MaxSize(y)) = b {
                if let Some(TypeSize::MaxSize(z)) = c {
                    equality_is_transitive(*x, *y, *z);
                }
            }
        },
        Some(TypeSize::TypeSize(x, s)) => {
            if let Some(TypeSize::TypeSize(y, t)) = b {
                if let Some(TypeSize::TypeSize(z, u)) = c {
                    equality_is_transitive(*x, *y, *z);
                    equality_is_transitive(*s, *t, *u);
                }
            }
        },
        None => {},
    }
}

/// The numeric literals of an expression have the numbers that `reads` gives for
/// their texts, as far as equivalence looks into it.
pub open spec fn numbers_read(e: Expr, reads: spec_fn(Seq<char>) -> Option<u64>) -> bool
    decreases e, 0nat,
{
    match e {
        Expr::Between { lhs, start, end, .. } => {
            numbers_read(*lhs, reads) && numbers_read(*start, reads) && numbers_read(*end, reads)
        },
        Expr::Binary(lhs, _, rhs) => numbers_read(*lhs, reads) && numbers_read(*rhs, reads),
        Expr::Case { when_then_pairs, .. } => pairs_read(
            when_then_pairs@,
            when_then_pairs@.len(),
            reads,
        ),
        Expr::Cast { expr, .. } => numbers_read(*expr, reads),
        Expr::Collate(expr, _) => numbers_read(*expr, reads),
        Expr::FunctionCallStar { filter_over: Some(tail), .. } => match tail.filter_clause {
            Some(filter) => numbers_read(*filter, reads),
            None => true,
        },
        Expr::Literal(Literal::Numeric(n)) => n.value == reads(n.text@),
        Expr::IsNull(expr) => numbers_read(*expr, reads),
        Expr::NotNull(expr) => numbers_read(*expr, reads),
        Expr::Unary(_, expr) => numbers_read(*expr, reads),
        Expr::Parenthesized(exprs) => list_reads(exprs@, exprs@.len(), reads),
        Expr::InList { lhs, rhs, .. } => numbers_read(*lhs, reads) && match rhs {
            Some(list) => list_reads(list@, list@.len(), reads),
            None => true,
        },
        _ => true,
    }
}

/// The numeric literals of the first `n` expressions of a list have the numbers
/// that `reads` gives.
pub open spec fn list_reads(
    s: Seq<Expr>,
    n: nat,
    reads: spec_fn(Seq<char>) -> Option<u64>,
) -> bool
    decreases s, n,
{
    0 < n <= s.len() ==> list_reads(s, (n - 1) as nat, reads) && numbers_read(s[n - 1], reads)
}

/// The numeric literals of the first `n` pairs of a list have the numbers that
/// `reads` gives.
pub open spec fn pairs_read(
    s: Seq<(Expr, Expr)>,
    n: nat,
    reads: spec_fn(Seq<char>) -> Option<u64>,
) -> bool
    decreases s, n,
{
    0 < n <= s.len() ==> pairs_read(s, (n - 1) as nat, reads) && numbers_read(s[n - 1].0, reads)
        && numbers_read(s[n - 1].1, reads)
}

/// Two expressions that are equivalent to a third one are equivalent to each
/// other, wherever the comparison has an outcome. `reads` is how numeric
/// literals are read.
#[verifier::rlimit(3)]
pub proof fn equivalence_is_transitive(
    a: Expr,
    b: Expr,
    c: Expr,
    reads: spec_fn(Seq<char>) -> Option<u64>,
)
    requires
        equivalence::compare_exprs(a, b) == Some(true),
        equivalence::compare_exprs(b, c) == Some(true),
        numbers_read(a, reads),
        numbers_read(b, reads),
        numbers_read(c, reads),
    ensures
        outcome::consistent(equivalence::compare_exprs(a, c), Some(true)),
{
    chain_holds(a, b, c, reads);
}

/// Equivalent, whichever of the two comes first.
spec fn related(a: Expr, b: Expr) -> bool {
    ||| equivalence::compare_exprs(a, b) == Some(true)
    ||| equivalence::compare_exprs(b, a) == Some(true)
}

spec fn bare_related(a: Expr, b: Expr) -> bool {
    ||| equivalence::compare_bare_exprs(a, b) == Some(true)
    ||| equivalence::compare_bare_exprs(b, a) == Some(true)
}

spec fn lists_related(a: Seq<Expr>, b: Seq<Expr>, n: nat) -> bool {
    ||| equivalence::compare_lists(a, b, n) == Some(true)
    ||| equivalence::compare_lists(b, a, n) == Some(true)
}

spec fn pairs_related(a: Seq<(Expr, Expr)>, b: Seq<(Expr, Expr)>, n: nat) -> bool {
    ||| equivalence::compare_pairs(a, b, n) == Some(true)
    ||| equivalence::compare_pairs(b, a, n) == Some(true)
}

spec fn fit(a: Expr, b: Expr, c: Expr, reads: spec_fn(Seq<char>) -> Option<u64>) -> bool {
    &&& numbers_read(a, reads)
    &&& numbers_read(b, reads)
    &&& numbers_read(c, reads)
}

spec fn lists_fit(
    a: Seq<Expr>,
    b: Seq<Expr>,
    c: Seq<Expr>,
    n: nat,
    reads: spec_fn(Seq<char>) -> Option<u64>,
) -> bool {
    &&& list_reads(a, n, reads)
    &&& list_reads(b, n, reads)
    &&& list_reads(c, n, reads)
}

spec fn pairs_fit(
    a: Seq<(Expr, Expr)>,
    b: Seq<(Expr, Expr)>,
    c: Seq<(Expr, Expr)>,
    n: nat,
    reads: spec_fn(Seq<char>) -> Option<u64>,
) -> bool {
    &&& pairs_read(a, n, reads)
    &&& pairs_read(b, n, reads)
    &&& pairs_read(c, n, reads)
}

/// How many expressions three expressions are made of.
spec fn size3(a: Expr, b: Expr, c: Expr) -> nat {
    equivalence::size(a) + equivalence::size(b) + equivalence::size(c)
}

/// What stands in parentheses, if it is one expression.
spec fn inner(e: Expr) -> Expr {
    match e {
        Expr::Parenthesized(v) => v@[0],
        _ => e,
    }
}

/// Parentheses around one expression do not count.
#[verifier::rlimit(3)]
proof fn lemma_inner(e: Expr, reads: spec_fn(Seq<char>) -> Option<u64>)
    requires
        e matches Expr::Parenthesized(v) && v@.len() == 1,
    ensures
        equivalence::size(inner(e)) < equivalence::size(e),
        numbers_read(e, reads) ==> numbers_read(inner(e), reads),
{
    if let Expr::Parenthesized(v) = e {
        equivalence::lemma_size_of_one(v@);
        assert(list_reads(v@, 1, reads) ==> numbers_read(v@[0], reads));
    }
}

/// An expression in parentheses and one that is not are related only if the
/// parentheses hold one expression.
#[verifier::rlimit(3)]
proof fn lemma_one_inside(a: Expr, b: Expr)
    requires
        a is Parenthesized,
        b !is Parenthesized,
        related(a, b),
    ensures
        a matches Expr::Parenthesized(v) && v@.len() == 1,
        related(inner(a), b),
{
}

#[verifier::rlimit(3)]
proof fn chain_holds(
    a: Expr,
    b: Expr,
    c: Expr,
    reads: spec_fn(Seq<char>) -> Option<u64>,
)
    requires
        fit(a, b, c, reads),
        related(a, b),
        related(b, c),
    ensures
        outcome::consistent(equivalence::compare_exprs(a, c), Some(true)),
    decreases size3(a, b, c), 2nat,
{
    if a is Parenthesized {
        if b is Parenthesized {
            if c is Parenthesized {
                paren_chain_holds(a, b, c, reads);
            } else {
                lemma_one_inside(b, c);
                lemma_inner(b, reads);
                lemma_paren_related(a, b);
                lemma_inner(a, reads);
                chain_holds(inner(a), inner(b), c, reads);
            }
        } else {
            lemma_one_inside(a, b);
            lemma_inner(a, reads);
            if c is Parenthesized {
                lemma_one_inside(c, b);
                lemma_inner(c, reads);
                chain_holds(inner(a), b, inner(c), reads);
                lemma_both_inside(a, c);
            } else {
                chain_holds(inner(a), b, c, reads);
            }
        }
    } else if b is Parenthesized {
        lemma_one_inside(b, a);
        lemma_inner(b, reads);
        if c is Parenthesized {
            lemma_paren_related(c, b);
            lemma_inner(c, reads);
            chain_holds(inner(c), inner(b), a, reads);
        } else {
            chain_holds(a, inner(b), c, reads);
        }
    } else if c is Parenthesized {
        lemma_one_inside(c, b);
        lemma_inner(c, reads);
        chain_holds(inner(c), b, a, reads);
    } else {
        bare_chain_holds(a, b, c, reads);
    }
}

/// Comparing two lists of one expression is comparing those two.
#[verifier::rlimit(3)]
proof fn lemma_lists_of_one(a: Seq<Expr>, b: Seq<Expr>)
    requires
        a.len() == 1,
        b.len() == 1,
    ensures
        equivalence::compare_lists(a, b, 1) == equivalence::compare_exprs(a[0], b[0]),
{
    assert(equivalence::compare_lists(a, b, 0) == Some(true));
    assert(equivalence::compare_lists(a, b, 1) == outcome::both(
        equivalence::compare_lists(a, b, 0),
        equivalence::compare_exprs(a[0], b[0]),
    ));
}

/// Of two related expressions in parentheses, both hold one expression if one
/// does, and those are related.
#[verifier::rlimit(3)]
proof fn lemma_paren_related(a: Expr, b: Expr)
    requires
        a is Parenthesized,
        b matches Expr::Parenthesized(v) && v@.len() == 1,
        related(a, b),
    ensures
        a matches Expr::Parenthesized(v) && v@.len() == 1,
        related(inner(a), inner(b)),
{
    if let Expr::Parenthesized(v) = a {
        if let Expr::Parenthesized(w) = b {
            assert(v@.len() == 1);
            lemma_lists_of_one(v@, w@);
            lemma_lists_of_one(w@, v@);
        }
    }
}

/// Comparing two expressions that each stand alone in parentheses is comparing
/// what stands there.
#[verifier::rlimit(3)]
proof fn lemma_both_inside(a: Expr, b: Expr)
    requires
        a matches Expr::Parenthesized(v) && v@.len() == 1,
        b matches Expr::Parenthesized(v) && v@.len() == 1,
    ensures
        equivalence::compare_exprs(a, b) == equivalence::compare_exprs(inner(a), inner(b)),
{
    if let Expr::Parenthesized(v) = a {
        if let Expr::Parenthesized(w) = b {
            rewriting::parentheses_around_both_do_not_count(v, w);
        }
    }
}

#[verifier::rlimit(3)]
proof fn paren_chain_holds(
    a: Expr,
    b: Expr,
    c: Expr,
    reads: spec_fn(Seq<char>) -> Option<u64>,
)
    requires
        a is Parenthesized,
        b is Parenthesized,
        c is Parenthesized,
        fit(a, b, c, reads),
        related(a, b),
        related(b, c),
    ensures
        outcome::consistent(equivalence::compare_exprs(a, c), Some(true)),
    decreases size3(a, b, c), 0nat,
{
    if let Expr::Parenthesized(v1) = a {
        if let Expr::Parenthesized(v2) = b {
            if let Expr::Parenthesized(v3) = c {
                list_chain_holds(v1@, v2@, v3@, v1@.len(), reads);
            }
        }
    }
}

#[verifier::rlimit(3)]
proof fn list_chain_holds(
    a: Seq<Expr>,
    b: Seq<Expr>,
    c: Seq<Expr>,
    n: nat,
    reads: spec_fn(Seq<char>) -> Option<u64>,
)
    requires
        n <= a.len() == b.len() == c.len(),
        lists_fit(a, b, c, n, reads),
        lists_related(a, b, n),
        lists_related(b, c, n),
    ensures
        outcome::consistent(equivalence::compare_lists(a, c, n), Some(true)),
    decreases
            equivalence::size_of_list(a, n) + equivalence::size_of_list(b, n)
                + equivalence::size_of_list(c, n),
            3nat,
{
    if n > 0 {
        equivalence::lemma_size_positive(a[n - 1]);
        list_chain_holds(a, b, c, (n - 1) as nat, reads);
        chain_holds(a[n - 1], b[n - 1], c[n - 1], reads);
    }
}

#[verifier::rlimit(3)]
proof fn pairs_chain_holds(
    a: Seq<(Expr, Expr)>,
    b: Seq<(Expr, Expr)>,
    c: Seq<(Expr, Expr)>,
    n: nat,
    reads: spec_fn(Seq<char>) -> Option<u64>,
)
    requires
        n <= a.len() == b.len() == c.len(),
        pairs_fit(a, b, c, n, reads),
        pairs_related(a, b, n),
        pairs_related(b, c, n),
    ensures
        outcome::consistent(equivalence::compare_pairs(a, c, n), Some(true)),
    decreases
            equivalence::size_of_pairs(a, n) + equivalence::size_of_pairs(b, n)
                + equivalence::size_of_pairs(c, n),
            3nat,
{
    if n > 0 {
        equivalence::lemma_size_positive(a[n - 1].0);
        pairs_chain_holds(a, b, c, (n - 1) as nat, reads);
        chain_holds(a[n - 1].0, b[n - 1].0, c[n - 1].0, reads);
        chain_holds(a[n - 1].1, b[n - 1].1, c[n - 1].1, reads);
    }
}

#[verifier::rlimit(3)]
proof fn bare_chain_holds(
    a: Expr,
    b: Expr,
    c: Expr,
    reads: spec_fn(Seq<char>) -> Option<u64>,
)
    requires
        a !is Parenthesized,
        b !is Parenthesized,
        c !is Parenthesized,
        fit(a, b, c, reads),
        bare_related(a, b),
        bare_related(b, c),
    ensures
        outcome::consistent(equivalence::compare_bare_exprs(a, c), Some(true)),
    decreases size3(a, b, c), 1nat,
{
    if a is Between {
        lemma_same_kind(a, b);
        lemma_same_kind(b, c);
        between_chain_holds(a, b, c, reads);
    } else if a is Binary {
        lemma_same_kind(a, b);
        lemma_same_kind(b, c);
        binary_chain_holds(a, b, c, reads);
    } else if a is Case {
        lemma_same_kind(a, b);
        lemma_same_kind(b, c);
        case_chain_holds(a, b, c, reads);
    } else if a is Cast {
        lemma_same_kind(a, b);
        lemma_same_kind(b, c);
        cast_chain_holds(a, b, c, reads);
    } else if a is Collate {
        lemma_same_kind(a, b);
        lemma_same_kind(b, c);
        collate_chain_holds(a, b, c, reads);
    } else if a is FunctionCall {
        lemma_same_kind(a, b);
        lemma_same_kind(b, c);
        call_chain_holds(a, b, c, reads);
    } else if a is FunctionCallStar {
        lemma_same_kind(a, b);
        lemma_same_kind(b, c);
        call_star_chain_holds(a, b, c, reads);
    } else if a is NotNull {
        lemma_same_kind(a, b);
        lemma_same_kind(b, c);
        not_null_chain_holds(a, b, c, reads);
    } else if a is IsNull {
        lemma_same_kind(a, b);
        lemma_same_kind(b, c);
        is_null_chain_holds(a, b, c, reads);
    } else if a is Literal {
        lemma_same_kind(a, b);
        lemma_same_kind(b, c);
        literal_chain_holds(a, b, c, reads);
    } else if a is Id {
        lemma_same_kind(a, b);
        lemma_same_kind(b, c);
        id_chain_holds(a, b, c, reads);
    } else if a is Unary {
        lemma_same_kind(a, b);
        lemma_same_kind(b, c);
        unary_chain_holds(a, b, c, reads);
    } else if a is Qualified {
        lemma_same_kind(a, b);
        lemma_same_kind(b, c);
        qualified_chain_holds(a, b, c, reads);
    } else if a is DoublyQualified {
        lemma_same_kind(a, b);
        lemma_same_kind(b, c);
        doubly_qualified_chain_holds(a, b, c, reads);
    } else if a is InList {
        lemma_same_kind(a, b);
        lemma_same_kind(b, c);
        in_list_chain_holds(a, b, c, reads);
    } else {
        other_chain_holds(a, b, c);
    }
}

#[verifier::rlimit(3)]
proof fn between_chain_holds(
    a: Expr,
    b: Expr,
    c: Expr,
    reads: spec_fn(Seq<char>) -> Option<u64>,
)
    requires
        a is Between,
        b is Between,
        c is Between,
        fit(a, b, c, reads),
        bare_related(a, b),
        bare_related(b, c),
    ensures
        outcome::consistent(equivalence::compare_bare_exprs(a, c), Some(true)),
    decreases size3(a, b, c), 0nat,
{
    if let Expr::Between { lhs: l1, start: s1, end: e1, .. } = a {
        if let Expr::Between { lhs: l2, start: s2, end: e2, .. } = b {
            if let Expr::Between { lhs: l3, start: s3, end: e3, .. } = c {
                chain_holds(*l1, *l2, *l3, reads);
                chain_holds(*s1, *s2, *s3, reads);
                chain_holds(*e1, *e2, *e3, reads);
            }
        }
    }
}

#[verifier::rlimit(3)]
proof fn binary_chain_holds(
    a: Expr,
    b: Expr,
    c: Expr,
    reads: spec_fn(Seq<char>) -> Option<u64>,
)
    requires
        a is Binary,
        b is Binary,
        c is Binary,
        fit(a, b, c, reads),
        bare_related(a, b),
        bare_related(b, c),
    ensures
        outcome::consistent(equivalence::compare_bare_exprs(a, c), Some(true)),
    decreases size3(a, b, c), 0nat,
{
    if let Expr::Binary(l1, o1, r1) = a {
        if let Expr::Binary(l2, o2, r2) = b {
            if let Expr::Binary(l3, o3, r3) = c {
                let straight1 = related(*l1, *l2) && related(*r1, *r2);
                let straight2 = related(*l2, *l3) && related(*r2, *r3);
                let crossed1 = o1.commutes() && related(*l1, *r2) && related(*r1, *l2);
                let crossed2 = o1.commutes() && related(*l2, *r3) && related(*r2, *l3);
                assert(straight1 || crossed1);
                assert(straight2 || crossed2);
                if straight1 && straight2 {
                    chain_holds(*l1, *l2, *l3, reads);
                    chain_holds(*r1, *r2, *r3, reads);
                } else if straight1 && crossed2 {
                    chain_holds(*l1, *l2, *r3, reads);
                    chain_holds(*r1, *r2, *l3, reads);
                } else if crossed1 && straight2 {
                    chain_holds(*l1, *r2, *r3, reads);
                    chain_holds(*r1, *l2, *l3, reads);
                } else {
                    chain_holds(*l1, *r2, *l3, reads);
                    chain_holds(*r1, *l2, *r3, reads);
                }
            }
        }
    }
}

#[verifier::rlimit(3)]
proof fn case_chain_holds(
    a: Expr,
    b: Expr,
    c: Expr,
    reads: spec_fn(Seq<char>) -> Option<u64>,
)
    requires
        a is Case,
        b is Case,
        c is Case,
        fit(a, b, c, reads),
        bare_related(a, b),
        bare_related(b, c),
    ensures
        outcome::consistent(equivalence::compare_bare_exprs(a, c), Some(true)),
    decreases size3(a, b, c), 0nat,
{
    if let Expr::Case { base: b1, when_then_pairs: p1, else_expr: e1 } = a {
        if let Expr::Case { base: b2, when_then_pairs: p2, else_expr: e2 } = b {
            if let Expr::Case { base: b3, when_then_pairs: p3, else_expr: e3 } = c {
                symmetry::opt_expr_symmetric(b1, b2);
                symmetry::opt_expr_symmetric(b2, b3);
                opt_expr_transitive(b1, b2, b3);
                symmetry::opt_expr_symmetric(e1, e2);
                symmetry::opt_expr_symmetric(e2, e3);
                opt_expr_transitive(e1, e2, e3);
                pairs_chain_holds(p1@, p2@, p3@, p1@.len(), reads);
            }
        }
    }
}

#[verifier::rlimit(3)]
proof fn cast_chain_holds(
    a: Expr,
    b: Expr,
    c: Expr,
    reads: spec_fn(Seq<char>) -> Option<u64>,
)
    requires
        a is Cast,
        b is Cast,
        c is Cast,
        fit(a, b, c, reads),
        bare_related(a, b),
        bare_related(b, c),
    ensures
        outcome::consistent(equivalence::compare_bare_exprs(a, c), Some(true)),
    decreases size3(a, b, c), 0nat,
{
    if let Expr::Cast { expr: x1, .. } = a {
        if let Expr::Cast { expr: x2, .. } = b {
            if let Expr::Cast { expr: x3, .. } = c {
                chain_holds(*x1, *x2, *x3, reads);
            }
        }
    }
}

#[verifier::rlimit(3)]
proof fn collate_chain_holds(
    a: Expr,
    b: Expr,
    c: Expr,
    reads: spec_fn(Seq<char>) -> Option<u64>,
)
    requires
        a is Collate,
        b is Collate,
        c is Collate,
        fit(a, b, c, reads),
        bare_related(a, b),
        bare_related(b, c),
    ensures
        outcome::consistent(equivalence::compare_bare_exprs(a, c), Some(true)),
    decreases size3(a, b, c), 0nat,
{
    if let Expr::Collate(x1, _) = a {
        if let Expr::Collate(x2, _) = b {
            if let Expr::Collate(x3, _) = c {
                chain_holds(*x1, *x2, *x3, reads);
            }
        }
    }
}

#[verifier::rlimit(3)]
proof fn call_chain_holds(
    a: Expr,
    b: Expr,
    c: Expr,
    reads: spec_fn(Seq<char>) -> Option<u64>,
)
    requires
        a is FunctionCall,
        b is FunctionCall,
        c is FunctionCall,
        fit(a, b, c, reads),
        bare_related(a, b),
        bare_related(b, c),
    ensures
        outcome::consistent(equivalence::compare_bare_exprs(a, c), Some(true)),
{
    if let Expr::FunctionCall { args: a1, order_by: o1, filter_over: f1, .. } = a {
        if let Expr::FunctionCall { args: a2, order_by: o2, filter_over: f2, .. } = b {
            if let Expr::FunctionCall { args: a3, order_by: o3, filter_over: f3, .. } = c {
                symmetry::opt_exprs_symmetric(a1, a2);
                symmetry::opt_exprs_symmetric(a2, a3);
                opt_exprs_transitive(a1, a2, a3);
                symmetry::opt_sorted_symmetric(o1, o2);
                symmetry::opt_sorted_symmetric(o2, o3);
                opt_sorted_transitive(o1, o2, o3);
                symmetry::opt_tail_symmetric(f1, f2);
                symmetry::opt_tail_symmetric(f2, f3);
                opt_tail_transitive(f1, f2, f3);
            }
        }
    }
}

#[verifier::rlimit(3)]
proof fn call_star_chain_holds(
    a: Expr,
    b: Expr,
    c: Expr,
    reads: spec_fn(Seq<char>) -> Option<u64>,
)
    requires
        a is FunctionCallStar,
        b is FunctionCallStar,
        c is FunctionCallStar,
        fit(a, b, c, reads),
        bare_related(a, b),
        bare_related(b, c),
    ensures
        outcome::consistent(equivalence::compare_bare_exprs(a, c), Some(true)),
    decreases size3(a, b, c), 0nat,
{
    if let Expr::FunctionCallStar { filter_over: f1, .. } = a {
        if let Expr::FunctionCallStar { filter_over: f2, .. } = b {
            if let Expr::FunctionCallStar { filter_over: f3, .. } = c {
                if f1 is Some {
                    let t1 = f1->0;
                    let t2 = f2->0;
                    let t3 = f3->0;
                    if t1.filter_clause is Some {
                        chain_holds(
                            *t1.filter_clause->0,
                            *t2.filter_clause->0,
                            *t3.filter_clause->0,
                            reads,
                        );
                    }
                    symmetry::opt_over_symmetric(t1.over_clause, t2.over_clause);
                    symmetry::opt_over_symmetric(t2.over_clause, t3.over_clause);
                    opt_over_transitive(t1.over_clause, t2.over_clause, t3.over_clause);
                }
            }
        }
    }
}

#[verifier::rlimit(3)]
proof fn not_null_chain_holds(
    a: Expr,
    b: Expr,
    c: Expr,
    reads: spec_fn(Seq<char>) -> Option<u64>,
)
    requires
        a is NotNull,
        b is NotNull,
        c is NotNull,
        fit(a, b, c, reads),
        bare_related(a, b),
        bare_related(b, c),
    ensures
        outcome::consistent(equivalence::compare_bare_exprs(a, c), Some(true)),
    decreases size3(a, b, c), 0nat,
{
    if let Expr::NotNull(x1) = a {
        if let Expr::NotNull(x2) = b {
            if let Expr::NotNull(x3) = c {
                chain_holds(*x1, *x2, *x3, reads);
            }
        }
    }
}

#[verifier::rlimit(3)]
proof fn is_null_chain_holds(
    a: Expr,
    b: Expr,
    c: Expr,
    reads: spec_fn(Seq<char>) -> Option<u64>,
)
    requires
        a is IsNull,
        b is IsNull,
        c is IsNull,
        fit(a, b, c, reads),
        bare_related(a, b),
        bare_related(b, c),
    ensures
        outcome::consistent(equivalence::compare_bare_exprs(a, c), Some(true)),
    decreases size3(a, b, c), 0nat,
{
    if let Expr::IsNull(x1) = a {
        if let Expr::IsNull(x2) = b {
            if let Expr::IsNull(x3) = c {
                chain_holds(*x1, *x2, *x3, reads);
            }
        }
    }
}

#[verifier::rlimit(3)]
proof fn literal_chain_holds(
    a: Expr,
    b: Expr,
    c: Expr,
    reads: spec_fn(Seq<char>) -> Option<u64>,
)
    requires
        a is Literal,
        b is Literal,
        c is Literal,
        fit(a, b, c, reads),
        bare_related(a, b),
        bare_related(b, c),
    ensures
        outcome::consistent(equivalence::compare_bare_exprs(a, c), Some(true)),
{
}

#[verifier::rlimit(3)]
proof fn id_chain_holds(
    a: Expr,
    b: Expr,
    c: Expr,
    reads: spec_fn(Seq<char>) -> Option<u64>,
)
    requires
        a is Id,
        b is Id,
        c is Id,
        fit(a, b, c, reads),
        bare_related(a, b),
        bare_related(b, c),
    ensures
        outcome::consistent(equivalence::compare_bare_exprs(a, c), Some(true)),
{
}

#[verifier::rlimit(3)]
proof fn unary_chain_holds(
    a: Expr,
    b: Expr,
    c: Expr,
    reads: spec_fn(Seq<char>) -> Option<u64>,
)
    requires
        a is Unary,
        b is Unary,
        c is Unary,
        fit(a, b, c, reads),
        bare_related(a, b),
        bare_related(b, c),
    ensures
        outcome::consistent(equivalence::compare_bare_exprs(a, c), Some(true)),
    decreases size3(a, b, c), 0nat,
{
    if let Expr::Unary(_, x1) = a {
        if let Expr::Unary(_, x2) = b {
            if let Expr::Unary(_, x3) = c {
                chain_holds(*x1, *x2, *x3, reads);
            }
        }
    }
}

#[verifier::rlimit(3)]
proof fn qualified_chain_holds(
    a: Expr,
    b: Expr,
    c: Expr,
    reads: spec_fn(Seq<char>) -> Option<u64>,
)
    requires
        a is Qualified,
        b is Qualified,
        c is Qualified,
        fit(a, b, c, reads),
        bare_related(a, b),
        bare_related(b, c),
    ensures
        outcome::consistent(equivalence::compare_bare_exprs(a, c), Some(true)),
{
}

#[verifier::rlimit(3)]
proof fn doubly_qualified_chain_holds(
    a: Expr,
    b: Expr,
    c: Expr,
    reads: spec_fn(Seq<char>) -> Option<u64>,
)
    requires
        a is DoublyQualified,
        b is DoublyQualified,
        c is DoublyQualified,
        fit(a, b, c, reads),
        bare_related(a, b),
        bare_related(b, c),
    ensures
        outcome::consistent(equivalence::compare_bare_exprs(a, c), Some(true)),
{
}

#[verifier::rlimit(3)]
proof fn in_list_chain_holds(
    a: Expr,
    b: Expr,
    c: Expr,
    reads: spec_fn(Seq<char>) -> Option<u64>,
)
    requires
        a is InList,
        b is InList,
        c is InList,
        fit(a, b, c, reads),
        bare_related(a, b),
        bare_related(b, c),
    ensures
        outcome::consistent(equivalence::compare_bare_exprs(a, c), Some(true)),
    decreases size3(a, b, c), 0nat,
{
    if let Expr::InList { lhs: l1, rhs: r1, .. } = a {
        if let Expr::InList { lhs: l2, rhs: r2, .. } = b {
            if let Expr::InList { lhs: l3, rhs: r3, .. } = c {
                chain_holds(*l1, *l2, *l3, reads);
                if r1 is Some {
                    list_chain_holds(r1->0@, r2->0@, r3->0@, r1->0@.len(), reads);
                }
            }
        }
    }
}

/// The expression is of a kind of which equivalence looks at more than whether
/// two are equal.
spec fn is_special(e: Expr) -> bool {
    ||| e is Between
    ||| e is Binary
    ||| e is Case
    ||| e is Cast
    ||| e is Collate
    ||| e is FunctionCall
    ||| e is FunctionCallStar
    ||| e is NotNull
    ||| e is IsNull
    ||| e is Literal
    ||| e is Id
    ||| e is Unary
    ||| e is Qualified
    ||| e is DoublyQualified
    ||| e is InList
}

/// Related expressions are of the same kind.
#[verifier::rlimit(3)]
proof fn lemma_same_kind(a: Expr, b: Expr)
    requires
        a !is Parenthesized,
        b !is Parenthesized,
        bare_related(a, b),
    ensures
        (a is Between) == (b is Between),
        (a is Binary) == (b is Binary),
        (a is Case) == (b is Case),
        (a is Cast) == (b is Cast),
        (a is Collate) == (b is Collate),
        (a is FunctionCall) == (b is FunctionCall),
        (a is FunctionCallStar) == (b is FunctionCallStar),
        (a is NotNull) == (b is NotNull),
        (a is IsNull) == (b is IsNull),
        (a is Literal) == (b is Literal),
        (a is Id) == (b is Id),
        (a is Unary) == (b is Unary),
        (a is Qualified) == (b is Qualified),
        (a is DoublyQualified) == (b is DoublyQualified),
        (a is InList) == (b is InList),
{
}

#[verifier::rlimit(3)]
proof fn other_chain_holds(a: Expr, b: Expr, c: Expr)
    requires
        !is_special(a),
        a !is Parenthesized,
        b !is Parenthesized,
        c !is Parenthesized,
        bare_related(a, b),
        bare_related(b, c),
    ensures
        outcome::consistent(equivalence::compare_bare_exprs(a, c), Some(true)),
{
    lemma_same_kind(a, b);
    lemma_same_kind(b, c);
    symmetry::equality_is_symmetric(a, b);
    symmetry::equality_is_symmetric(b, c);
    equality_is_transitive(a, b, c);
}

} // verus!
