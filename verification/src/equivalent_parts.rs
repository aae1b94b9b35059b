//! What equivalent expressions have in common, part by part.

use vstd::prelude::*;

use crate::ast::{
    Distinctness, Expr, FunctionTail, Id, Literal, Name, Operator, SortedColumn, Type,
    UnaryOperator,
};
use crate::double;
use crate::equal_parts;
use crate::equivalence;
use crate::ident;
use crate::same;
use crate::text;

verus! {

/// Expressions of different kinds, neither of which is in parentheses, are not
/// equivalent.
#[verifier::rlimit(2)]
pub proof fn different_kinds_are_not_equivalent(a: Expr, b: Expr)
    requires
        a !is Parenthesized,
        b !is Parenthesized,
        equal_parts::kind(a) != equal_parts::kind(b),
    ensures
        equivalence::compare_exprs(a, b) == Some(false),
{
    assert(equivalence::compare_exprs(a, b) == equivalence::compare_bare_exprs(a, b));
    equal_parts::different_kinds_are_not_equal(a, b);
}

/// What is negated is not equivalent to what is not.
#[verifier::rlimit(2)]
pub proof fn negation_counts(a: Expr, b: Expr)
    requires
        equivalence::compare_exprs(a, b) == Some(true),
    ensures
        a matches Expr::Like { not: m, .. } ==> (b matches Expr::Like { not: n, .. } ==> m == n),
        a matches Expr::Between { not: m, .. } ==> (b matches Expr::Between { not: n, .. } ==> m
            == n),
        a matches Expr::InList { not: m, .. } ==> (b matches Expr::InList { not: n, .. } ==> m
            == n),
        a matches Expr::InSelect { not: m, .. } ==> (b matches Expr::InSelect { not: n, .. } ==> m
            == n),
        a matches Expr::InTable { not: m, .. } ==> (b matches Expr::InTable { not: n, .. } ==> m
            == n),
{
    if a !is Parenthesized && b !is Parenthesized {
        assert(equivalence::compare_exprs(a, b) == equivalence::compare_bare_exprs(a, b));
    }
}

/// Expressions of kinds of which nothing else is said are equivalent if they are
/// equal.
#[verifier::rlimit(2)]
pub proof fn otherwise_equality_counts(a: Expr, b: Expr)
    requires
        equal_parts::kind(a) == equal_parts::kind(b),
        a is Exists || a is Column || a is RowId || a is InSelect || a is InTable || a is Like
            || a is Name || a is Raise || a is Subquery || a is Variable,
    ensures
        equivalence::compare_exprs(a, b) == same::same_expr(a, b),
{
    assert(equivalence::compare_exprs(a, b) == equivalence::compare_bare_exprs(a, b));
}

/// Two binary expressions are equivalent if they have the same operator and
/// their operands are equivalent, in order or, for the operators that allow it,
/// crosswise.
#[verifier::rlimit(2)]
pub proof fn equivalent_binary(
    l1: Box<Expr>,
    op1: Operator,
    r1: Box<Expr>,
    l2: Box<Expr>,
    op2: Operator,
    r2: Box<Expr>,
)
    requires
        equivalence::compare_exprs(*l1, *l2) is Some,
        equivalence::compare_exprs(*r1, *r2) is Some,
        equivalence::compare_exprs(*l1, *r2) is Some,
        equivalence::compare_exprs(*r1, *l2) is Some,
    ensures
        equivalence::compare_exprs(Expr::Binary(l1, op1, r1), Expr::Binary(l2, op2, r2)) == Some(
            op1 == op2 && {
                ||| equivalence::compare_exprs(*l1, *l2) == Some(true)
                    && equivalence::compare_exprs(*r1, *r2) == Some(true)
                ||| {
                    &&& op1 == Operator::Add || op1 == Operator::Multiply || op1
                        == Operator::BitwiseAnd || op1 == Operator::BitwiseOr || op1
                        == Operator::Equals || op1 == Operator::NotEquals
                    &&& equivalence::compare_exprs(*l1, *r2) == Some(true)
                    &&& equivalence::compare_exprs(*r1, *l2) == Some(true)
                }
            },
        ),
{
    let x = Expr::Binary(l1, op1, r1);
    let y = Expr::Binary(l2, op2, r2);
    assert(equivalence::compare_exprs(x, y) == equivalence::compare_bare_exprs(x, y));
}

/// Binary expressions with different operators are not equivalent, and those
/// whose operands are equivalent in order are if they have the same one.
#[verifier::rlimit(2)]
pub proof fn operators_count(
    l1: Box<Expr>,
    op1: Operator,
    r1: Box<Expr>,
    l2: Box<Expr>,
    op2: Operator,
    r2: Box<Expr>,
)
    ensures
        op1 != op2 ==> equivalence::compare_exprs(
            Expr::Binary(l1, op1, r1),
            Expr::Binary(l2, op2, r2),
        ) == Some(false),
        op1 == op2 && equivalence::compare_exprs(*l1, *l2) == Some(true)
            && equivalence::compare_exprs(*r1, *r2) == Some(true) ==> equivalence::compare_exprs(
            Expr::Binary(l1, op1, r1),
            Expr::Binary(l2, op2, r2),
        ) == Some(true),
{
    let x = Expr::Binary(l1, op1, r1);
    let y = Expr::Binary(l2, op2, r2);
    assert(equivalence::compare_exprs(x, y) == equivalence::compare_bare_exprs(x, y));
}

/// Two casts are equivalent if their operands are, and their types have names
/// that differ at most in case, or both have none.
#[verifier::rlimit(2)]
pub proof fn equivalent_cast(
    x1: Box<Expr>,
    t1: Option<Type>,
    x2: Box<Expr>,
    t2: Option<Type>,
)
    ensures
        equivalence::compare_exprs(
            Expr::Cast { expr: x1, target: t1 },
            Expr::Cast { expr: x2, target: t2 },
        ) == Some(true) <==> {
            &&& equivalence::compare_exprs(*x1, *x2) == Some(true)
            &&& t1 is Some == t2 is Some
            &&& t1 matches Some(t) ==> (t2 matches Some(u) ==> text::same_ignoring_case(
                t.name@,
                u.name@,
            ))
        },
        equivalence::compare_exprs(*x1, *x2) is Some ==> equivalence::compare_exprs(
            Expr::Cast { expr: x1, target: t1 },
            Expr::Cast { expr: x2, target: t2 },
        ) is Some,
{
    let x = Expr::Cast { expr: x1, target: t1 };
    let y = Expr::Cast { expr: x2, target: t2 };
    assert(equivalence::compare_exprs(x, y) == equivalence::compare_bare_exprs(x, y));
}

/// Two calls with `*` are equivalent if their names differ at most in case,
/// their filters are equivalent and their windows equal; each of these may be
/// missing on both sides.
#[verifier::rlimit(2)]
pub proof fn equivalent_call_star(n1: Id, t1: FunctionTail, n2: Id, t2: FunctionTail)
    ensures
        ({
            let x = Expr::FunctionCallStar { name: n1, filter_over: Some(t1) };
            let y = Expr::FunctionCallStar { name: n2, filter_over: Some(t2) };
            let outcome = equivalence::compare_exprs(x, y);
            &&& outcome == Some(true) <==> {
                &&& text::same_ignoring_case(n1.0@, n2.0@)
                &&& t1.filter_clause is Some == t2.filter_clause is Some
                &&& t1.filter_clause matches Some(c) ==> (t2.filter_clause matches Some(d)
                    ==> equivalence::compare_exprs(*c, *d) == Some(true))
                &&& same::same_opt_over(t1.over_clause, t2.over_clause) == Some(true)
            }
            &&& {
                &&& same::same_opt_over(t1.over_clause, t2.over_clause) is Some
                &&& t1.filter_clause matches Some(c) ==> (t2.filter_clause matches Some(d)
                    ==> equivalence::compare_exprs(*c, *d) is Some)
            } ==> outcome is Some
        }),
{
    let x = Expr::FunctionCallStar { name: n1, filter_over: Some(t1) };
    let y = Expr::FunctionCallStar { name: n2, filter_over: Some(t2) };
    assert(equivalence::compare_exprs(x, y) == equivalence::compare_bare_exprs(x, y));
}

/// Of two calls with `*` of which one has neither filter nor window, the other
/// has neither if they are equivalent.
#[verifier::rlimit(2)]
pub proof fn equivalent_plain_call_star(n1: Id, n2: Id, t: FunctionTail)
    ensures
        ({
            let x = Expr::FunctionCallStar { name: n1, filter_over: None };
            let y = Expr::FunctionCallStar { name: n2, filter_over: None };
            let z = Expr::FunctionCallStar { name: n2, filter_over: Some(t) };
            &&& equivalence::compare_exprs(x, y) == Some(text::same_ignoring_case(n1.0@, n2.0@))
            &&& equivalence::compare_exprs(x, z) == Some(false)
            &&& equivalence::compare_exprs(z, x) == Some(false)
        }),
{
    let x = Expr::FunctionCallStar { name: n1, filter_over: None };
    let y = Expr::FunctionCallStar { name: n2, filter_over: None };
    let z = Expr::FunctionCallStar { name: n2, filter_over: Some(t) };
    assert(equivalence::compare_exprs(x, y) == equivalence::compare_bare_exprs(x, y));
    assert(equivalence::compare_exprs(x, z) == equivalence::compare_bare_exprs(x, z));
    assert(equivalence::compare_exprs(z, x) == equivalence::compare_bare_exprs(z, x));
}

/// Two `IN` with a list are equivalent if both or neither are negated, their
/// operands are equivalent, and their lists are of the same length and
/// equivalent one by one, or both missing.
#[verifier::rlimit(2)]
pub proof fn equivalent_in_list(
    l1: Box<Expr>,
    not1: bool,
    r1: Option<Vec<Expr>>,
    l2: Box<Expr>,
    not2: bool,
    r2: Option<Vec<Expr>>,
)
    ensures
        ({
            let x = Expr::InList { lhs: l1, not: not1, rhs: r1 };
            let y = Expr::InList { lhs: l2, not: not2, rhs: r2 };
            let outcome = equivalence::compare_exprs(x, y);
            &&& outcome == Some(true) <==> {
                &&& not1 == not2
                &&& equivalence::compare_exprs(*l1, *l2) == Some(true)
                &&& r1 is Some == r2 is Some
                &&& r1 matches Some(v) ==> (r2 matches Some(w) ==> v@.len() == w@.len()
                    && equivalence::compare_lists(v@, w@, v@.len()) == Some(true))
            }
            &&& {
                &&& equivalence::compare_exprs(*l1, *l2) is Some
                &&& r1 matches Some(v) ==> (r2 matches Some(w) ==> equivalence::compare_lists(
                    v@,
                    w@,
                    v@.len(),
                ) is Some)
            } ==> outcome is Some
        }),
{
    let x = Expr::InList { lhs: l1, not: not1, rhs: r1 };
    let y = Expr::InList { lhs: l2, not: not2, rhs: r2 };
    assert(equivalence::compare_exprs(x, y) == equivalence::compare_bare_exprs(x, y));
}

/// Parentheses around one expression stand for it; around none or several they
/// are equivalent only to parentheses around as many, one by one.
#[verifier::rlimit(2)]
pub proof fn equivalent_parenthesized(v: Vec<Expr>, w: Vec<Expr>, e: Expr)
    requires
        e !is Parenthesized,
    ensures
        v@.len() == 1 ==> equivalence::compare_exprs(Expr::Parenthesized(v), e)
            == equivalence::compare_exprs(v@[0], e),
        v@.len() == 1 ==> equivalence::compare_exprs(e, Expr::Parenthesized(v))
            == equivalence::compare_exprs(v@[0], e),
        v@.len() != 1 ==> equivalence::compare_exprs(Expr::Parenthesized(v), e) == Some(false),
        v@.len() != 1 ==> equivalence::compare_exprs(e, Expr::Parenthesized(v)) == Some(false),
        equivalence::compare_exprs(Expr::Parenthesized(v), Expr::Parenthesized(w)) == if v@.len()
            == w@.len() {
            equivalence::compare_lists(v@, w@, v@.len())
        } else {
            Some(false)
        },
{
}

/// The first `n` expressions of two lists are equivalent if each is equivalent
/// to the one in its place.
#[verifier::rlimit(2)]
pub proof fn equivalent_lists(a: Seq<Expr>, b: Seq<Expr>, n: nat)
    requires
        n <= a.len(),
        n <= b.len(),
    ensures
        equivalence::compare_lists(a, b, n) == Some(true) <==> forall|i: int|
            0 <= i < n ==> equivalence::compare_exprs(#[trigger] a[i], b[i]) == Some(true),
        (forall|i: int| 0 <= i < n ==> equivalence::compare_exprs(#[trigger] a[i], b[i]) is Some)
            ==> equivalence::compare_lists(a, b, n) is Some,
    decreases n,
{
    if n > 0 {
        equivalent_lists(a, b, (n - 1) as nat);
    }
}

/// The first `n` pairs of two lists are equivalent if each is equivalent to the
/// one in its place.
#[verifier::rlimit(2)]
pub proof fn equivalent_pairs(a: Seq<(Expr, Expr)>, b: Seq<(Expr, Expr)>, n: nat)
    requires
        n <= a.len(),
        n <= b.len(),
    ensures
        equivalence::compare_pairs(a, b, n) == Some(true) <==> forall|i: int|
            0 <= i < n ==> equivalence::compare_exprs((#[trigger] a[i]).0, b[i].0) == Some(true)
                && equivalence::compare_exprs(a[i].1, b[i].1) == Some(true),
        (forall|i: int|
            0 <= i < n ==> equivalence::compare_exprs((#[trigger] a[i]).0, b[i].0) is Some
                && equivalence::compare_exprs(a[i].1, b[i].1) is Some)
            ==> equivalence::compare_pairs(a, b, n) is Some,
    decreases n,
{
    if n > 0 {
        equivalent_pairs(a, b, (n - 1) as nat);
    }
}

/// Two literals are equivalent if they are of the same kind and mean the same:
/// numbers as doubles or, where one reads as none, as texts; strings and
/// keywords as identifiers; blobs as texts.
#[verifier::rlimit(2)]
pub proof fn equivalent_literal(a: Literal, b: Literal)
    ensures
        equivalence::compare_exprs(Expr::Literal(a), Expr::Literal(b))
            == equivalence::compare_literals(a, b),
        equivalence::compare_literals(a, b) == match a {
            Literal::Numeric(x) => Some(
                b matches Literal::Numeric(y) && if x.value is Some && y.value is Some {
                    double::equal(x.value->0, y.value->0)
                } else {
                    x.text@ == y.text@
                },
            ),
            Literal::String(x) => match b {
                Literal::String(y) => ident::compare_idents(x@, y@),
                _ => Some(false),
            },
            Literal::Keyword(x) => match b {
                Literal::Keyword(y) => ident::compare_idents(x@, y@),
                _ => Some(false),
            },
            Literal::Blob(x) => Some(b matches Literal::Blob(y) && x@ == y@),
            Literal::Null => Some(b is Null),
            Literal::CurrentDate => Some(b is CurrentDate),
            Literal::CurrentTime => Some(b is CurrentTime),
            Literal::CurrentTimestamp => Some(b is CurrentTimestamp),
        },
{
    let x = Expr::Literal(a);
    let y = Expr::Literal(b);
    assert(equivalence::compare_exprs(x, y) == equivalence::compare_bare_exprs(x, y));
}

/// Two `BETWEEN` are equivalent if both or neither are negated and all operands are
/// equivalent.
#[verifier::rlimit(2)]
pub proof fn equivalent_between(
    l1: Box<Expr>,
    not1: bool,
    s1: Box<Expr>,
    e1: Box<Expr>,
    l2: Box<Expr>,
    not2: bool,
    s2: Box<Expr>,
    e2: Box<Expr>,
)
    ensures
        ({
            let outcome = equivalence::compare_exprs(
                Expr::Between { lhs: l1, not: not1, start: s1, end: e1 },
                Expr::Between { lhs: l2, not: not2, start: s2, end: e2 },
            );
            &&& outcome == Some(true) <==> {
                &&& not1 == not2
                &&& equivalence::compare_exprs(*l1, *l2) == Some(true)
                &&& equivalence::compare_exprs(*s1, *s2) == Some(true)
                &&& equivalence::compare_exprs(*e1, *e2) == Some(true)
            }
            &&& {
                &&& equivalence::compare_exprs(*l1, *l2) is Some
                &&& equivalence::compare_exprs(*s1, *s2) is Some
                &&& equivalence::compare_exprs(*e1, *e2) is Some
            } ==> outcome is Some
        }),
{
    let x = Expr::Between { lhs: l1, not: not1, start: s1, end: e1 };
    let y = Expr::Between { lhs: l2, not: not2, start: s2, end: e2 };
    assert(equivalence::compare_exprs(x, y) == equivalence::compare_bare_exprs(x, y));
}

/// Two `CASE` are equivalent if their bases and `ELSE` are equal, and their arms are
/// equivalent one by one.
#[verifier::rlimit(2)]
pub proof fn equivalent_case(
    base1: Option<Box<Expr>>,
    p1: Vec<(Expr, Expr)>,
    e1: Option<Box<Expr>>,
    base2: Option<Box<Expr>>,
    p2: Vec<(Expr, Expr)>,
    e2: Option<Box<Expr>>,
)
    ensures
        ({
            let outcome = equivalence::compare_exprs(
                Expr::Case { base: base1, when_then_pairs: p1, else_expr: e1 },
                Expr::Case { base: base2, when_then_pairs: p2, else_expr: e2 },
            );
            &&& outcome == Some(true) <==> {
                &&& p1@.len() == p2@.len()
                &&& same::same_opt_expr(base1, base2) == Some(true)
                &&& equivalence::compare_pairs(p1@, p2@, p1@.len()) == Some(true)
                &&& same::same_opt_expr(e1, e2) == Some(true)
            }
            &&& {
                &&& same::same_opt_expr(base1, base2) is Some
                &&& equivalence::compare_pairs(p1@, p2@, p1@.len()) is Some
                &&& same::same_opt_expr(e1, e2) is Some
            } ==> outcome is Some
        }),
{
    let x = Expr::Case { base: base1, when_then_pairs: p1, else_expr: e1 };
    let y = Expr::Case { base: base2, when_then_pairs: p2, else_expr: e2 };
    assert(equivalence::compare_exprs(x, y) == equivalence::compare_bare_exprs(x, y));
}

/// Two collations are equivalent if their operands are and their names differ at most in
/// case.
#[verifier::rlimit(2)]
pub proof fn equivalent_collate(
    x1: Box<Expr>,
    c1: String,
    x2: Box<Expr>,
    c2: String,
)
    ensures
        ({
            let outcome = equivalence::compare_exprs(
                Expr::Collate(x1, c1),
                Expr::Collate(x2, c2),
            );
            &&& outcome == Some(true) <==> {
                &&& text::same_ignoring_case(c1@, c2@)
                &&& equivalence::compare_exprs(*x1, *x2) == Some(true)
            }
            &&& {
                &&& equivalence::compare_exprs(*x1, *x2) is Some
            } ==> outcome is Some
        }),
{
    let x = Expr::Collate(x1, c1);
    let y = Expr::Collate(x2, c2);
    assert(equivalence::compare_exprs(x, y) == equivalence::compare_bare_exprs(x, y));
}

/// Two doubly qualified names are equivalent if all three identifiers are.
#[verifier::rlimit(2)]
pub proof fn equivalent_doubly_qualified(
    s1: Name,
    t1: Name,
    c1: Name,
    s2: Name,
    t2: Name,
    c2: Name,
)
    ensures
        ({
            let outcome = equivalence::compare_exprs(
                Expr::DoublyQualified(s1, t1, c1),
                Expr::DoublyQualified(s2, t2, c2),
            );
            &&& outcome == Some(true) <==> {
                &&& ident::compare_idents(s1.0@, s2.0@) == Some(true)
                &&& ident::compare_idents(t1.0@, t2.0@) == Some(true)
                &&& ident::compare_idents(c1.0@, c2.0@) == Some(true)
            }
            &&& {
                &&& ident::compare_idents(s1.0@, s2.0@) is Some
                &&& ident::compare_idents(t1.0@, t2.0@) is Some
                &&& ident::compare_idents(c1.0@, c2.0@) is Some
            } ==> outcome is Some
        }),
{
    let x = Expr::DoublyQualified(s1, t1, c1);
    let y = Expr::DoublyQualified(s2, t2, c2);
    assert(equivalence::compare_exprs(x, y) == equivalence::compare_bare_exprs(x, y));
}

/// Two calls are equivalent if their names differ at most in case, and all else is equal.
#[verifier::rlimit(2)]
pub proof fn equivalent_call(
    n1: Id,
    d1: Option<Distinctness>,
    a1: Option<Vec<Expr>>,
    o1: Option<Vec<SortedColumn>>,
    f1: Option<FunctionTail>,
    n2: Id,
    d2: Option<Distinctness>,
    a2: Option<Vec<Expr>>,
    o2: Option<Vec<SortedColumn>>,
    f2: Option<FunctionTail>,
)
    ensures
        ({
            let outcome = equivalence::compare_exprs(
                Expr::FunctionCall {
                    name: n1,
                    distinctness: d1,
                    args: a1,
                    order_by: o1,
                    filter_over: f1,
                },
                Expr::FunctionCall {
                    name: n2,
                    distinctness: d2,
                    args: a2,
                    order_by: o2,
                    filter_over: f2,
                },
            );
            &&& outcome == Some(true) <==> {
                &&& text::same_ignoring_case(n1.0@, n2.0@)
                &&& d1 == d2
                &&& same::same_opt_exprs(a1, a2) == Some(true)
                &&& same::same_opt_sorted(o1, o2) == Some(true)
                &&& same::same_opt_tail(f1, f2) == Some(true)
            }
            &&& {
                &&& same::same_opt_exprs(a1, a2) is Some
                &&& same::same_opt_sorted(o1, o2) is Some
                &&& same::same_opt_tail(f1, f2) is Some
            } ==> outcome is Some
        }),
{
    let x = Expr::FunctionCall {
        name: n1,
        distinctness: d1,
        args: a1,
        order_by: o1,
        filter_over: f1,
    };
    let y = Expr::FunctionCall {
        name: n2,
        distinctness: d2,
        args: a2,
        order_by: o2,
        filter_over: f2,
    };
    assert(equivalence::compare_exprs(x, y) == equivalence::compare_bare_exprs(x, y));
}

/// Two identifiers are equivalent if they name the same thing.
#[verifier::rlimit(2)]
pub proof fn equivalent_id(
    i1: Id,
    i2: Id,
)
    ensures
        ({
            let outcome = equivalence::compare_exprs(
                Expr::Id(i1),
                Expr::Id(i2),
            );
            &&& outcome == Some(true) <==> {
                &&& ident::compare_idents(i1.0@, i2.0@) == Some(true)
            }
            &&& {
                &&& ident::compare_idents(i1.0@, i2.0@) is Some
            } ==> outcome is Some
        }),
{
    let x = Expr::Id(i1);
    let y = Expr::Id(i2);
    assert(equivalence::compare_exprs(x, y) == equivalence::compare_bare_exprs(x, y));
}

/// Two `IS NULL` are equivalent if their operands are.
#[verifier::rlimit(2)]
pub proof fn equivalent_is_null(
    x1: Box<Expr>,
    x2: Box<Expr>,
)
    ensures
        ({
            let outcome = equivalence::compare_exprs(
                Expr::IsNull(x1),
                Expr::IsNull(x2),
            );
            &&& outcome == Some(true) <==> {
                &&& equivalence::compare_exprs(*x1, *x2) == Some(true)
            }
            &&& {
                &&& equivalence::compare_exprs(*x1, *x2) is Some
            } ==> outcome is Some
        }),
{
    let x = Expr::IsNull(x1);
    let y = Expr::IsNull(x2);
    assert(equivalence::compare_exprs(x, y) == equivalence::compare_bare_exprs(x, y));
}

/// Two `NOT NULL` are equivalent if their operands are.
#[verifier::rlimit(2)]
pub proof fn equivalent_not_null(
    x1: Box<Expr>,
    x2: Box<Expr>,
)
    ensures
        ({
            let outcome = equivalence::compare_exprs(
                Expr::NotNull(x1),
                Expr::NotNull(x2),
            );
            &&& outcome == Some(true) <==> {
                &&& equivalence::compare_exprs(*x1, *x2) == Some(true)
            }
            &&& {
                &&& equivalence::compare_exprs(*x1, *x2) is Some
            } ==> outcome is Some
        }),
{
    let x = Expr::NotNull(x1);
    let y = Expr::NotNull(x2);
    assert(equivalence::compare_exprs(x, y) == equivalence::compare_bare_exprs(x, y));
}

/// Two qualified names are equivalent if both identifiers are.
#[verifier::rlimit(2)]
pub proof fn equivalent_qualified(
    t1: Name,
    c1: Name,
    t2: Name,
    c2: Name,
)
    ensures
        ({
            let outcome = equivalence::compare_exprs(
                Expr::Qualified(t1, c1),
                Expr::Qualified(t2, c2),
            );
            &&& outcome == Some(true) <==> {
                &&& ident::compare_idents(t1.0@, t2.0@) == Some(true)
                &&& ident::compare_idents(c1.0@, c2.0@) == Some(true)
            }
            &&& {
                &&& ident::compare_idents(t1.0@, t2.0@) is Some
                &&& ident::compare_idents(c1.0@, c2.0@) is Some
            } ==> outcome is Some
        }),
{
    let x = Expr::Qualified(t1, c1);
    let y = Expr::Qualified(t2, c2);
    assert(equivalence::compare_exprs(x, y) == equivalence::compare_bare_exprs(x, y));
}

/// Two unary expressions are equivalent if they have the same operator and equivalent
/// operands.
#[verifier::rlimit(2)]
pub proof fn equivalent_unary(
    op1: UnaryOperator,
    x1: Box<Expr>,
    op2: UnaryOperator,
    x2: Box<Expr>,
)
    ensures
        ({
            let outcome = equivalence::compare_exprs(
                Expr::Unary(op1, x1),
                Expr::Unary(op2, x2),
            );
            &&& outcome == Some(true) <==> {
                &&& op1 == op2
                &&& equivalence::compare_exprs(*x1, *x2) == Some(true)
            }
            &&& {
                &&& equivalence::compare_exprs(*x1, *x2) is Some
            } ==> outcome is Some
        }),
{
    let x = Expr::Unary(op1, x1);
    let y = Expr::Unary(op2, x2);
    assert(equivalence::compare_exprs(x, y) == equivalence::compare_bare_exprs(x, y));
}

} // verus!
