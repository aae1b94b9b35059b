//! What equal expressions have in common, part by part.

use vstd::prelude::*;

use crate::ast::{
    Distinctness, Expr, FrameBound, FrameClause, FunctionTail, Id, LikeOperator, Literal, Name,
    Operator, Over, QualifiedName, ResolveType, Select, SortedColumn, Type, TypeSize, UnaryOperator,
    Window,
};
use crate::name;
use crate::same;

verus! {

/// The kind of an expression.
pub open spec fn kind(e: Expr) -> int {
    match e {
        Expr::Between { .. } => 0,
        Expr::Binary(..) => 1,
        Expr::Case { .. } => 2,
        Expr::Cast { .. } => 3,
        Expr::Collate(..) => 4,
        Expr::DoublyQualified(..) => 5,
        Expr::Exists(..) => 6,
        Expr::FunctionCall { .. } => 7,
        Expr::FunctionCallStar { .. } => 8,
        Expr::Id(..) => 9,
        Expr::Column { .. } => 10,
        Expr::RowId { .. } => 11,
        Expr::InList { .. } => 12,
        Expr::InSelect { .. } => 13,
        Expr::InTable { .. } => 14,
        Expr::IsNull(..) => 15,
        Expr::Like { .. } => 16,
        Expr::Literal(..) => 17,
        Expr::Name(..) => 18,
        Expr::NotNull(..) => 19,
        Expr::Parenthesized(..) => 20,
        Expr::Qualified(..) => 21,
        Expr::Raise(..) => 22,
        Expr::Subquery(..) => 23,
        Expr::Unary(..) => 24,
        Expr::Variable(..) => 25,
    }
}

/// Expressions of different kinds are not equal.
#[verifier::rlimit(2)]
pub proof fn different_kinds_are_not_equal(a: Expr, b: Expr)
    requires
        kind(a) != kind(b),
    ensures
        same::same_expr(a, b) == Some(false),
{
}

/// Two `BETWEEN` are equal if both or neither are negated and all operands are equal.
#[verifier::rlimit(2)]
pub proof fn equal_between(
    l1: Box<Expr>,
    not1: bool,
    s1: Box<Expr>,
    e1: Box<Expr>,
    l2: Box<Expr>,
    not2: bool,
    s2: Box<Expr>,
    e2: Box<Expr>,
)
    ensures
        ({
            let outcome = same::same_expr(
                Expr::Between { lhs: l1, not: not1, start: s1, end: e1 },
                Expr::Between { lhs: l2, not: not2, start: s2, end: e2 },
            );
            &&& outcome == Some(true) <==> {
                &&& not1 == not2
                &&& same::same_expr(*l1, *l2) == Some(true)
                &&& same::same_expr(*s1, *s2) == Some(true)
                &&& same::same_expr(*e1, *e2) == Some(true)
            }
            &&& {
                &&& same::same_expr(*l1, *l2) is Some
                &&& same::same_expr(*s1, *s2) is Some
                &&& same::same_expr(*e1, *e2) is Some
            } ==> outcome is Some
        }),
{
}

/// Two binary expressions are equal if they have the same operator and equal operands, in
/// order.
#[verifier::rlimit(2)]
pub proof fn equal_binary(
    l1: Box<Expr>,
    op1: Operator,
    r1: Box<Expr>,
    l2: Box<Expr>,
    op2: Operator,
    r2: Box<Expr>,
)
    ensures
        ({
            let outcome = same::same_expr(
                Expr::Binary(l1, op1, r1),
                Expr::Binary(l2, op2, r2),
            );
            &&& outcome == Some(true) <==> {
                &&& op1 == op2
                &&& same::same_expr(*l1, *l2) == Some(true)
                &&& same::same_expr(*r1, *r2) == Some(true)
            }
            &&& {
                &&& same::same_expr(*l1, *l2) is Some
                &&& same::same_expr(*r1, *r2) is Some
            } ==> outcome is Some
        }),
{
}

/// Two `CASE` are equal if their bases, arms and `ELSE` are equal.
#[verifier::rlimit(2)]
pub proof fn equal_case(
    base1: Option<Box<Expr>>,
    p1: Vec<(Expr, Expr)>,
    e1: Option<Box<Expr>>,
    base2: Option<Box<Expr>>,
    p2: Vec<(Expr, Expr)>,
    e2: Option<Box<Expr>>,
)
    ensures
        ({
            let outcome = same::same_expr(
                Expr::Case { base: base1, when_then_pairs: p1, else_expr: e1 },
                Expr::Case { base: base2, when_then_pairs: p2, else_expr: e2 },
            );
            &&& outcome == Some(true) <==> {
                &&& p1@.len() == p2@.len()
                &&& same::same_opt_expr(base1, base2) == Some(true)
                &&& same::same_pairs(p1@, p2@, p1@.len()) == Some(true)
                &&& same::same_opt_expr(e1, e2) == Some(true)
            }
            &&& {
                &&& same::same_opt_expr(base1, base2) is Some
                &&& same::same_pairs(p1@, p2@, p1@.len()) is Some
                &&& same::same_opt_expr(e1, e2) is Some
            } ==> outcome is Some
        }),
{
}

/// Two casts are equal if their operands and types are equal.
#[verifier::rlimit(2)]
pub proof fn equal_cast(
    x1: Box<Expr>,
    t1: Option<Type>,
    x2: Box<Expr>,
    t2: Option<Type>,
)
    ensures
        ({
            let outcome = same::same_expr(
                Expr::Cast { expr: x1, target: t1 },
                Expr::Cast { expr: x2, target: t2 },
            );
            &&& outcome == Some(true) <==> {
                &&& same::same_expr(*x1, *x2) == Some(true)
                &&& same::same_opt_type(t1, t2) == Some(true)
            }
            &&& {
                &&& same::same_expr(*x1, *x2) is Some
                &&& same::same_opt_type(t1, t2) is Some
            } ==> outcome is Some
        }),
{
}

/// Two collations are equal if their operands are equal and their names are the same text.
#[verifier::rlimit(2)]
pub proof fn equal_collate(
    x1: Box<Expr>,
    c1: String,
    x2: Box<Expr>,
    c2: String,
)
    ensures
        ({
            let outcome = same::same_expr(
                Expr::Collate(x1, c1),
                Expr::Collate(x2, c2),
            );
            &&& outcome == Some(true) <==> {
                &&& c1@ == c2@
                &&& same::same_expr(*x1, *x2) == Some(true)
            }
            &&& {
                &&& same::same_expr(*x1, *x2) is Some
            } ==> outcome is Some
        }),
{
}

/// Two doubly qualified names are equal if all three names are.
#[verifier::rlimit(2)]
pub proof fn equal_doubly_qualified(
    s1: Name,
    t1: Name,
    c1: Name,
    s2: Name,
    t2: Name,
    c2: Name,
)
    ensures
        ({
            let outcome = same::same_expr(
                Expr::DoublyQualified(s1, t1, c1),
                Expr::DoublyQualified(s2, t2, c2),
            );
            &&& outcome == Some(true) <==> {
                &&& name::compare_names(s1.0@, s2.0@) == Some(true)
                &&& name::compare_names(t1.0@, t2.0@) == Some(true)
                &&& name::compare_names(c1.0@, c2.0@) == Some(true)
            }
            &&& {
                &&& name::compare_names(s1.0@, s2.0@) is Some
                &&& name::compare_names(t1.0@, t2.0@) is Some
                &&& name::compare_names(c1.0@, c2.0@) is Some
            } ==> outcome is Some
        }),
{
}

/// Two `EXISTS` are equal if they hold the same statement.
#[verifier::rlimit(2)]
pub proof fn equal_exists(
    s1: Box<Select>,
    s2: Box<Select>,
)
    ensures
        ({
            let outcome = same::same_expr(
                Expr::Exists(s1),
                Expr::Exists(s2),
            );
            &&& outcome == Some(true) <==> {
                &&& s1.0 == s2.0
            }
            &&& outcome is Some
        }),
{
}

/// Two calls are equal if all they are made of is equal; the name is the same text.
#[verifier::rlimit(2)]
pub proof fn equal_call(
    n1: Id,
    d1: Option<Distinctness>,
    a1: Option<Vec<Expr>>,
    o1: Option<Vec<SortedColumn>>,
    f1: Option<FunctionTail>,
    n2: Id,
    d2: Option<Distinctness>,
    a2: Option<Vec<Expr>>,
    o2: Option<Vec<SortedColumn>>,
    f2: Option<FunctionTail>,
)
    ensures
        ({
            let outcome = same::same_expr(
                Expr::FunctionCall {
                    name: n1,
                    distinctness: d1,
                    args: a1,
                    order_by: o1,
                    filter_over: f1,
                },
                Expr::FunctionCall {
                    name: n2,
                    distinctness: d2,
                    args: a2,
                    order_by: o2,
                    filter_over: f2,
                },
            );
            &&& outcome == Some(true) <==> {
                &&& n1.0@ == n2.0@
                &&& d1 == d2
                &&& same::same_opt_exprs(a1, a2) == Some(true)
                &&& same::same_opt_sorted(o1, o2) == Some(true)
                &&& same::same_opt_tail(f1, f2) == Some(true)
            }
            &&& {
                &&& same::same_opt_exprs(a1, a2) is Some
                &&& same::same_opt_sorted(o1, o2) is Some
                &&& same::same_opt_tail(f1, f2) is Some
            } ==> outcome is Some
        }),
{
}

/// Two calls with `*` are equal if all they are made of is equal; the name is the same text.
#[verifier::rlimit(2)]
pub proof fn equal_call_star(
    n1: Id,
    f1: Option<FunctionTail>,
    n2: Id,
    f2: Option<FunctionTail>,
)
    ensures
        ({
            let outcome = same::same_expr(
                Expr::FunctionCallStar { name: n1, filter_over: f1 },
                Expr::FunctionCallStar { name: n2, filter_over: f2 },
            );
            &&& outcome == Some(true) <==> {
                &&& n1.0@ == n2.0@
                &&& same::same_opt_tail(f1, f2) == Some(true)
            }
            &&& {
                &&& same::same_opt_tail(f1, f2) is Some
            } ==> outcome is Some
        }),
{
}

/// Two identifiers are equal if they are the same text.
#[verifier::rlimit(2)]
pub proof fn equal_id(
    i1: Id,
    i2: Id,
)
    ensures
        ({
            let outcome = same::same_expr(
                Expr::Id(i1),
                Expr::Id(i2),
            );
            &&& outcome == Some(true) <==> {
                &&& i1.0@ == i2.0@
            }
            &&& outcome is Some
        }),
{
}

/// Two columns are equal if all numbers are the same.
#[verifier::rlimit(2)]
pub proof fn equal_column(
    d1: Option<usize>,
    t1: usize,
    c1: usize,
    r1: bool,
    d2: Option<usize>,
    t2: usize,
    c2: usize,
    r2: bool,
)
    ensures
        ({
            let outcome = same::same_expr(
                Expr::Column { database: d1, table: t1, column: c1, is_rowid_alias: r1 },
                Expr::Column { database: d2, table: t2, column: c2, is_rowid_alias: r2 },
            );
            &&& outcome == Some(true) <==> {
                &&& d1 == d2
                &&& t1 == t2
                &&& c1 == c2
                &&& r1 == r2
            }
            &&& outcome is Some
        }),
{
}

/// Two row ids are equal if they are of the same table.
#[verifier::rlimit(2)]
pub proof fn equal_row_id(
    d1: Option<usize>,
    t1: usize,
    d2: Option<usize>,
    t2: usize,
)
    ensures
        ({
            let outcome = same::same_expr(
                Expr::RowId { database: d1, table: t1 },
                Expr::RowId { database: d2, table: t2 },
            );
            &&& outcome == Some(true) <==> {
                &&& d1 == d2
                &&& t1 == t2
            }
            &&& outcome is Some
        }),
{
}

/// Two `IN` with a list are equal if both or neither are negated and their operands and
/// lists are equal.
#[verifier::rlimit(2)]
pub proof fn equal_in_list(
    l1: Box<Expr>,
    not1: bool,
    r1: Option<Vec<Expr>>,
    l2: Box<Expr>,
    not2: bool,
    r2: Option<Vec<Expr>>,
)
    ensures
        ({
            let outcome = same::same_expr(
                Expr::InList { lhs: l1, not: not1, rhs: r1 },
                Expr::InList { lhs: l2, not: not2, rhs: r2 },
            );
            &&& outcome == Some(true) <==> {
                &&& not1 == not2
                &&& same::same_expr(*l1, *l2) == Some(true)
                &&& same::same_opt_exprs(r1, r2) == Some(true)
            }
            &&& {
                &&& same::same_expr(*l1, *l2) is Some
                &&& same::same_opt_exprs(r1, r2) is Some
            } ==> outcome is Some
        }),
{
}

/// Two `IN` with a statement are equal if both or neither are negated, their operands are
/// equal and they hold the same statement.
#[verifier::rlimit(2)]
pub proof fn equal_in_select(
    l1: Box<Expr>,
    not1: bool,
    r1: Box<Select>,
    l2: Box<Expr>,
    not2: bool,
    r2: Box<Select>,
)
    ensures
        ({
            let outcome = same::same_expr(
                Expr::InSelect { lhs: l1, not: not1, rhs: r1 },
                Expr::InSelect { lhs: l2, not: not2, rhs: r2 },
            );
            &&& outcome == Some(true) <==> {
                &&& not1 == not2
                &&& r1.0 == r2.0
                &&& same::same_expr(*l1, *l2) == Some(true)
            }
            &&& {
                &&& same::same_expr(*l1, *l2) is Some
            } ==> outcome is Some
        }),
{
}

/// Two `IN` with a table are equal if both or neither are negated and their operands, tables
/// and arguments are equal.
#[verifier::rlimit(2)]
pub proof fn equal_in_table(
    l1: Box<Expr>,
    not1: bool,
    r1: QualifiedName,
    a1: Option<Vec<Expr>>,
    l2: Box<Expr>,
    not2: bool,
    r2: QualifiedName,
    a2: Option<Vec<Expr>>,
)
    ensures
        ({
            let outcome = same::same_expr(
                Expr::InTable { lhs: l1, not: not1, rhs: r1, args: a1 },
                Expr::InTable { lhs: l2, not: not2, rhs: r2, args: a2 },
            );
            &&& outcome == Some(true) <==> {
                &&& not1 == not2
                &&& same::same_expr(*l1, *l2) == Some(true)
                &&& same::same_qualified(r1, r2) == Some(true)
                &&& same::same_opt_exprs(a1, a2) == Some(true)
            }
            &&& {
                &&& same::same_expr(*l1, *l2) is Some
                &&& same::same_qualified(r1, r2) is Some
                &&& same::same_opt_exprs(a1, a2) is Some
            } ==> outcome is Some
        }),
{
}

/// Two `IS NULL` are equal if their operands are.
#[verifier::rlimit(2)]
pub proof fn equal_is_null(
    x1: Box<Expr>,
    x2: Box<Expr>,
)
    ensures
        ({
            let outcome = same::same_expr(
                Expr::IsNull(x1),
                Expr::IsNull(x2),
            );
            &&& outcome == Some(true) <==> {
                &&& same::same_expr(*x1, *x2) == Some(true)
            }
            &&& {
                &&& same::same_expr(*x1, *x2) is Some
            } ==> outcome is Some
        }),
{
}

/// Two `LIKE` are equal if both or neither are negated, they have the same operator, and
/// their operands and escapes are equal.
#[verifier::rlimit(2)]
pub proof fn equal_like(
    l1: Box<Expr>,
    not1: bool,
    op1: LikeOperator,
    r1: Box<Expr>,
    e1: Option<Box<Expr>>,
    l2: Box<Expr>,
    not2: bool,
    op2: LikeOperator,
    r2: Box<Expr>,
    e2: Option<Box<Expr>>,
)
    ensures
        ({
            let outcome = same::same_expr(
                Expr::Like { lhs: l1, not: not1, op: op1, rhs: r1, escape: e1 },
                Expr::Like { lhs: l2, not: not2, op: op2, rhs: r2, escape: e2 },
            );
            &&& outcome == Some(true) <==> {
                &&& not1 == not2
                &&& op1 == op2
                &&& same::same_expr(*l1, *l2) == Some(true)
                &&& same::same_expr(*r1, *r2) == Some(true)
                &&& same::same_opt_expr(e1, e2) == Some(true)
            }
            &&& {
                &&& same::same_expr(*l1, *l2) is Some
                &&& same::same_expr(*r1, *r2) is Some
                &&& same::same_opt_expr(e1, e2) is Some
            } ==> outcome is Some
        }),
{
}

/// Two names are equal if they are but for quotes and case.
#[verifier::rlimit(2)]
pub proof fn equal_name(
    n1: Name,
    n2: Name,
)
    ensures
        ({
            let outcome = same::same_expr(
                Expr::Name(n1),
                Expr::Name(n2),
            );
            &&& outcome == Some(true) <==> {
                &&& name::compare_names(n1.0@, n2.0@) == Some(true)
            }
            &&& {
                &&& name::compare_names(n1.0@, n2.0@) is Some
            } ==> outcome is Some
        }),
{
}

/// Two `NOT NULL` are equal if their operands are.
#[verifier::rlimit(2)]
pub proof fn equal_not_null(
    x1: Box<Expr>,
    x2: Box<Expr>,
)
    ensures
        ({
            let outcome = same::same_expr(
                Expr::NotNull(x1),
                Expr::NotNull(x2),
            );
            &&& outcome == Some(true) <==> {
                &&& same::same_expr(*x1, *x2) == Some(true)
            }
            &&& {
                &&& same::same_expr(*x1, *x2) is Some
            } ==> outcome is Some
        }),
{
}

/// Two expressions in parentheses are equal if they are as many, and equal one by one.
#[verifier::rlimit(2)]
pub proof fn equal_parenthesized(
    v1: Vec<Expr>,
    v2: Vec<Expr>,
)
    ensures
        ({
            let outcome = same::same_expr(
                Expr::Parenthesized(v1),
                Expr::Parenthesized(v2),
            );
            &&& outcome == Some(true) <==> {
                &&& v1@.len() == v2@.len()
                &&& same::same_exprs(v1@, v2@, v1@.len()) == Some(true)
            }
            &&& {
                &&& same::same_exprs(v1@, v2@, v1@.len()) is Some
            } ==> outcome is Some
        }),
{
}

/// Two qualified names are equal if both names are.
#[verifier::rlimit(2)]
pub proof fn equal_qualified(
    t1: Name,
    c1: Name,
    t2: Name,
    c2: Name,
)
    ensures
        ({
            let outcome = same::same_expr(
                Expr::Qualified(t1, c1),
                Expr::Qualified(t2, c2),
            );
            &&& outcome == Some(true) <==> {
                &&& name::compare_names(t1.0@, t2.0@) == Some(true)
                &&& name::compare_names(c1.0@, c2.0@) == Some(true)
            }
            &&& {
                &&& name::compare_names(t1.0@, t2.0@) is Some
                &&& name::compare_names(c1.0@, c2.0@) is Some
            } ==> outcome is Some
        }),
{
}

/// Two `RAISE` are equal if they resolve alike and their messages are equal.
#[verifier::rlimit(2)]
pub proof fn equal_raise(
    r1: ResolveType,
    x1: Option<Box<Expr>>,
    r2: ResolveType,
    x2: Option<Box<Expr>>,
)
    ensures
        ({
            let outcome = same::same_expr(
                Expr::Raise(r1, x1),
                Expr::Raise(r2, x2),
            );
            &&& outcome == Some(true) <==> {
                &&& r1 == r2
                &&& same::same_opt_expr(x1, x2) == Some(true)
            }
            &&& {
                &&& same::same_opt_expr(x1, x2) is Some
            } ==> outcome is Some
        }),
{
}

/// Two subqueries are equal if they hold the same statement.
#[verifier::rlimit(2)]
pub proof fn equal_subquery(
    s1: Box<Select>,
    s2: Box<Select>,
)
    ensures
        ({
            let outcome = same::same_expr(
                Expr::Subquery(s1),
                Expr::Subquery(s2),
            );
            &&& outcome == Some(true) <==> {
                &&& s1.0 == s2.0
            }
            &&& outcome is Some
        }),
{
}

/// Two unary expressions are equal if they have the same operator and equal operands.
#[verifier::rlimit(2)]
pub proof fn equal_unary(
    op1: UnaryOperator,
    x1: Box<Expr>,
    op2: UnaryOperator,
    x2: Box<Expr>,
)
    ensures
        ({
            let outcome = same::same_expr(
                Expr::Unary(op1, x1),
                Expr::Unary(op2, x2),
            );
            &&& outcome == Some(true) <==> {
                &&& op1 == op2
                &&& same::same_expr(*x1, *x2) == Some(true)
            }
            &&& {
                &&& same::same_expr(*x1, *x2) is Some
            } ==> outcome is Some
        }),
{
}

/// Two variables are equal if they are the same text.
#[verifier::rlimit(2)]
pub proof fn equal_variable(
    v1: String,
    v2: String,
)
    ensures
        ({
            let outcome = same::same_expr(
                Expr::Variable(v1),
                Expr::Variable(v2),
            );
            &&& outcome == Some(true) <==> {
                &&& v1@ == v2@
            }
            &&& outcome is Some
        }),
{
}

/// Two optional expressions are equal if both are there and equal, or neither is
/// there.
#[verifier::rlimit(2)]
pub proof fn equal_optional(a: Option<Box<Expr>>, b: Option<Box<Expr>>)
    ensures
        a is None && b is None ==> same::same_opt_expr(a, b) == Some(true),
        a is None != b is None ==> same::same_opt_expr(a, b) == Some(false),
        a is Some && b is Some ==> same::same_opt_expr(a, b) == same::same_expr(*a->0, *b->0),
{
}

/// Two optional names are equal if both are there and equal, or neither is there.
#[verifier::rlimit(2)]
pub proof fn equal_optional_names(a: Option<Name>, b: Option<Name>)
    ensures
        a is None && b is None ==> same::same_opt_name(a, b) == Some(true),
        a is None != b is None ==> same::same_opt_name(a, b) == Some(false),
        a matches Some(x) ==> (b matches Some(y) ==> same::same_opt_name(a, b)
            == name::compare_names(x.0@, y.0@)),
{
}

/// Two qualified names are equal if their schemas, names and aliases are.
#[verifier::rlimit(2)]
pub proof fn equal_qualified_names(a: QualifiedName, b: QualifiedName)
    ensures
        ({
            &&& same::same_qualified(a, b) == Some(true) <==> {
                &&& same::same_opt_name(a.db_name, b.db_name) == Some(true)
                &&& name::compare_names(a.name.0@, b.name.0@) == Some(true)
                &&& same::same_opt_name(a.alias, b.alias) == Some(true)
            }
        }),
        ({
            &&& {
                &&& same::same_opt_name(a.db_name, b.db_name) is Some
                &&& name::compare_names(a.name.0@, b.name.0@) is Some
                &&& same::same_opt_name(a.alias, b.alias) is Some
            } ==> same::same_qualified(a, b) is Some
        }),
{
}

/// Two literals are equal if they are of the same kind and written alike.
#[verifier::rlimit(2)]
pub proof fn equal_literal(a: Literal, b: Literal)
    ensures
        same::same_expr(Expr::Literal(a), Expr::Literal(b)) == Some(
            match a {
                Literal::Numeric(x) => b matches Literal::Numeric(y) && x.text@ == y.text@,
                Literal::String(x) => b matches Literal::String(y) && x@ == y@,
                Literal::Blob(x) => b matches Literal::Blob(y) && x@ == y@,
                Literal::Keyword(x) => b matches Literal::Keyword(y) && x@ == y@,
                Literal::Null => b is Null,
                Literal::CurrentDate => b is CurrentDate,
                Literal::CurrentTime => b is CurrentTime,
                Literal::CurrentTimestamp => b is CurrentTimestamp,
            },
        ),
{
}

/// The first `n` expressions of two lists are equal if each is equal to the one
/// in its place.
#[verifier::rlimit(2)]
pub proof fn equal_lists(a: Seq<Expr>, b: Seq<Expr>, n: nat)
    requires
        n <= a.len(),
        n <= b.len(),
    ensures
        same::same_exprs(a, b, n) == Some(true) <==> forall|i: int|
            0 <= i < n ==> same::same_expr(#[trigger] a[i], b[i]) == Some(true),
        (forall|i: int| 0 <= i < n ==> same::same_expr(#[trigger] a[i], b[i]) is Some)
            ==> same::same_exprs(a, b, n) is Some,
    decreases n,
{
    if n > 0 {
        equal_lists(a, b, (n - 1) as nat);
    }
}

/// The first `n` pairs of two lists are equal if each is equal to the one in its
/// place.
#[verifier::rlimit(2)]
pub proof fn equal_pairs(a: Seq<(Expr, Expr)>, b: Seq<(Expr, Expr)>, n: nat)
    requires
        n <= a.len(),
        n <= b.len(),
    ensures
        same::same_pairs(a, b, n) == Some(true) <==> forall|i: int|
            0 <= i < n ==> same::same_expr((#[trigger] a[i]).0, b[i].0) == Some(true)
                && same::same_expr(a[i].1, b[i].1) == Some(true),
        (forall|i: int|
            0 <= i < n ==> same::same_expr((#[trigger] a[i]).0, b[i].0) is Some
                && same::same_expr(a[i].1, b[i].1) is Some) ==> same::same_pairs(a, b, n) is Some,
    decreases n,
{
    if n > 0 {
        equal_pairs(a, b, (n - 1) as nat);
    }
}

/// The first `n` terms of two `ORDER BY` are equal if each is equal to the one in
/// its place, and sorted alike.
#[verifier::rlimit(2)]
pub proof fn equal_sorted(a: Seq<SortedColumn>, b: Seq<SortedColumn>, n: nat)
    requires
        n <= a.len(),
        n <= b.len(),
    ensures
        same::same_sorted(a, b, n) == Some(true) <==> forall|i: int|
            0 <= i < n ==> same::same_expr((#[trigger] a[i]).expr, b[i].expr) == Some(true)
                && a[i].order == b[i].order && a[i].nulls == b[i].nulls,
        (forall|i: int| 0 <= i < n ==> same::same_expr((#[trigger] a[i]).expr, b[i].expr) is Some)
            ==> same::same_sorted(a, b, n) is Some,
    decreases n,
{
    if n > 0 {
        equal_sorted(a, b, (n - 1) as nat);
    }
}

/// Two optional lists are equal if neither is there, or both are, are of the
/// same length, and equal one by one.
#[verifier::rlimit(2)]
pub proof fn equal_optional_lists(a: Option<Vec<Expr>>, b: Option<Vec<Expr>>)
    ensures
        a is None && b is None ==> same::same_opt_exprs(a, b) == Some(true),
        a is None != b is None ==> same::same_opt_exprs(a, b) == Some(false),
        a matches Some(x) ==> (b matches Some(y) ==> same::same_opt_exprs(a, b) == if x@.len()
            == y@.len() {
            same::same_exprs(x@, y@, x@.len())
        } else {
            Some(false)
        }),
{
}

/// Two optional `ORDER BY` are equal if neither is there, or both are, are of
/// the same length, and equal term by term.
#[verifier::rlimit(2)]
pub proof fn equal_optional_sorted(a: Option<Vec<SortedColumn>>, b: Option<Vec<SortedColumn>>)
    ensures
        a is None && b is None ==> same::same_opt_sorted(a, b) == Some(true),
        a is None != b is None ==> same::same_opt_sorted(a, b) == Some(false),
        a matches Some(x) ==> (b matches Some(y) ==> same::same_opt_sorted(a, b) == if x@.len()
            == y@.len() {
            same::same_sorted(x@, y@, x@.len())
        } else {
            Some(false)
        }),
{
}

/// What follows the arguments of two calls is equal if their filters and windows
/// are.
#[verifier::rlimit(2)]
pub proof fn equal_tails(x: FunctionTail, y: FunctionTail)
    ensures
        same::same_opt_tail(None, None) == Some(true),
        same::same_opt_tail(Some(x), None) == Some(false),
        same::same_opt_tail(None, Some(y)) == Some(false),
        ({
            &&& same::same_opt_tail(Some(x), Some(y)) == Some(true) <==> {
                &&& same::same_opt_expr(x.filter_clause, y.filter_clause) == Some(true)
                &&& same::same_opt_over(x.over_clause, y.over_clause) == Some(true)
            }
        }),
        ({
            &&& {
                &&& same::same_opt_expr(x.filter_clause, y.filter_clause) is Some
                &&& same::same_opt_over(x.over_clause, y.over_clause) is Some
            } ==> same::same_opt_tail(Some(x), Some(y)) is Some
        }),
{
}

/// Two optional `OVER` clauses are equal if neither is there, or both are and
/// are equal: the same window by its name, or two equal definitions.
#[verifier::rlimit(2)]
pub proof fn equal_overs(a: Option<Box<Over>>, b: Option<Box<Over>>)
    ensures
        a is None && b is None ==> same::same_opt_over(a, b) == Some(true),
        a is None != b is None ==> same::same_opt_over(a, b) == Some(false),
        a matches Some(x) ==> (b matches Some(y) ==> same::same_opt_over(a, b) == match *x {
            Over::Name(m) => match *y {
                Over::Name(n) => name::compare_names(m.0@, n.0@),
                Over::Window(_) => Some(false),
            },
            Over::Window(v) => match *y {
                Over::Name(_) => Some(false),
                Over::Window(w) => same::same_window(v, w),
            },
        }),
{
}

/// Two windows are equal if all they are made of is.
#[verifier::rlimit(2)]
pub proof fn equal_windows(a: Window, b: Window)
    ensures
        ({
            &&& same::same_window(a, b) == Some(true) <==> {
                &&& same::same_opt_name(a.base, b.base) == Some(true)
                &&& same::same_opt_exprs(a.partition_by, b.partition_by) == Some(true)
                &&& same::same_opt_sorted(a.order_by, b.order_by) == Some(true)
                &&& same::same_opt_frame(a.frame_clause, b.frame_clause) == Some(true)
            }
        }),
        ({
            &&& {
                &&& same::same_opt_name(a.base, b.base) is Some
                &&& same::same_opt_exprs(a.partition_by, b.partition_by) is Some
                &&& same::same_opt_sorted(a.order_by, b.order_by) is Some
                &&& same::same_opt_frame(a.frame_clause, b.frame_clause) is Some
            } ==> same::same_window(a, b) is Some
        }),
{
}

/// Two frames are equal if they have the same unit and leave out the same, and
/// their bounds are equal.
#[verifier::rlimit(2)]
pub proof fn equal_frames(x: FrameClause, y: FrameClause)
    ensures
        same::same_opt_frame(None, None) == Some(true),
        same::same_opt_frame(Some(x), None) == Some(false),
        same::same_opt_frame(None, Some(y)) == Some(false),
        ({
            &&& same::same_opt_frame(Some(x), Some(y)) == Some(true) <==> {
                &&& x.mode == y.mode
                &&& x.exclude == y.exclude
                &&& same::same_bound(x.start, y.start) == Some(true)
                &&& same::same_opt_bound(x.end, y.end) == Some(true)
            }
        }),
        ({
            &&& {
                &&& same::same_bound(x.start, y.start) is Some
                &&& same::same_opt_bound(x.end, y.end) is Some
            } ==> same::same_opt_frame(Some(x), Some(y)) is Some
        }),
{
}

/// Two bounds of a frame are equal if they are of the same kind and, where they
/// have one, by the same amount.
#[verifier::rlimit(2)]
pub proof fn equal_bounds(a: FrameBound, b: FrameBound)
    ensures
        same::same_bound(a, b) == match a {
            FrameBound::CurrentRow => Some(b is CurrentRow),
            FrameBound::UnboundedFollowing => Some(b is UnboundedFollowing),
            FrameBound::UnboundedPreceding => Some(b is UnboundedPreceding),
            FrameBound::Following(x) => match b {
                FrameBound::Following(y) => same::same_expr(*x, *y),
                _ => Some(false),
            },
            FrameBound::Preceding(x) => match b {
                FrameBound::Preceding(y) => same::same_expr(*x, *y),
                _ => Some(false),
            },
        },
        same::same_opt_bound(Some(a), Some(b)) == same::same_bound(a, b),
        same::same_opt_bound(Some(a), None) == Some(false),
        same::same_opt_bound(None, Some(b)) == Some(false),
        same::same_opt_bound(None, None) == Some(true),
{
}

/// Two types are equal if their names are the same text and their sizes are
/// equal.
#[verifier::rlimit(2)]
pub proof fn equal_types(x: Type, y: Type)
    ensures
        same::same_opt_type(None, None) == Some(true),
        same::same_opt_type(Some(x), None) == Some(false),
        same::same_opt_type(None, Some(y)) == Some(false),
        same::same_opt_type(Some(x), Some(y)) == if x.name@ == y.name@ {
            same::same_opt_size(x.size, y.size)
        } else {
            Some(false)
        },
{
}

/// Two sizes are equal if they are made of as many numbers, and these are equal.
#[verifier::rlimit(2)]
pub proof fn equal_sizes(x1: Box<Expr>, y1: Box<Expr>, x2: Box<Expr>, y2: Box<Expr>)
    ensures
        same::same_opt_size(None, None) == Some(true),
        same::same_opt_size(
            Some(TypeSize::MaxSize(x1)),
            Some(TypeSize::MaxSize(x2)),
        ) == same::same_expr(*x1, *x2),
        same::same_opt_size(
            Some(TypeSize::TypeSize(x1, y1)),
            Some(TypeSize::TypeSize(x2, y2)),
        ) == Some(true) <==> same::same_expr(*x1, *x2) == Some(true) && same::same_expr(*y1, *y2)
            == Some(true),
        same::same_expr(*x1, *x2) is Some && same::same_expr(*y1, *y2) is Some
            ==> same::same_opt_size(
            Some(TypeSize::TypeSize(x1, y1)),
            Some(TypeSize::TypeSize(x2, y2)),
        ) is Some,
        same::same_opt_size(Some(TypeSize::MaxSize(x1)), None) == Some(false),
        same::same_opt_size(None, Some(TypeSize::MaxSize(x1))) == Some(false),
        same::same_opt_size(Some(TypeSize::TypeSize(x1, y1)), None) == Some(false),
        same::same_opt_size(None, Some(TypeSize::TypeSize(x1, y1))) == Some(false),
        same::same_opt_size(
            Some(TypeSize::MaxSize(x1)),
            Some(TypeSize::TypeSize(x2, y2)),
        ) == Some(false),
        same::same_opt_size(
            Some(TypeSize::TypeSize(x2, y2)),
            Some(TypeSize::MaxSize(x1)),
        ) == Some(false),
{
}

} // verus!
