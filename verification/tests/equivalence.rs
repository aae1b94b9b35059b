//! Expressions that are written otherwise and mean the same.

use limbo_util::ast::{
    Distinctness, Expr, FrameBound, FrameClause, FrameMode, FunctionTail, Id, LikeOperator,
    Literal, Name, Number, Operator, Over, QualifiedName, ResolveType, Select, SortOrder,
    SortedColumn, Type, TypeSize, UnaryOperator, Window,
};
use limbo_util::equivalence::{exprs_are_equivalent, try_exprs_are_equivalent};

fn number(text: &str) -> Expr {
    Expr::Literal(Literal::Numeric(Number {
        text: text.to_string(),
        value: text.parse::<f64>().ok().map(f64::to_bits),
    }))
}

fn id(text: &str) -> Expr {
    Expr::Id(Id(text.to_string()))
}

fn binary(lhs: Expr, op: Operator, rhs: Expr) -> Expr {
    Expr::Binary(Box::new(lhs), op, Box::new(rhs))
}

fn star(name: &str, filter_over: Option<FunctionTail>) -> Expr {
    Expr::FunctionCallStar {
        name: Id(name.to_string()),
        filter_over,
    }
}

fn tail(filter: Option<Expr>, over: Option<Over>) -> Option<FunctionTail> {
    Some(FunctionTail {
        filter_clause: filter.map(Box::new),
        over_clause: over.map(Box::new),
    })
}

fn named(window: &str) -> Option<Over> {
    Some(Over::Name(Name(window.to_string())))
}

#[test]
fn operands_change_places_exactly_where_the_operator_commutes() {
    let all = [
        (Operator::Add, true),
        (Operator::And, false),
        (Operator::ArrowRight, false),
        (Operator::ArrowRightShift, false),
        (Operator::BitwiseAnd, true),
        (Operator::BitwiseOr, true),
        (Operator::BitwiseNot, false),
        (Operator::Concat, false),
        (Operator::Equals, true),
        (Operator::Divide, false),
        (Operator::Greater, false),
        (Operator::GreaterEquals, false),
        (Operator::Is, false),
        (Operator::IsNot, false),
        (Operator::LeftShift, false),
        (Operator::Less, false),
        (Operator::LessEquals, false),
        (Operator::Modulus, false),
        (Operator::Multiply, true),
        (Operator::NotEquals, true),
        (Operator::Or, false),
        (Operator::RightShift, false),
        (Operator::Subtract, false),
    ];
    for (op, commutes) in all {
        assert_eq!(op.is_commutative(), commutes);
        let a = binary(id("x"), op, id("y"));
        let b = binary(id("y"), op, id("x"));
        assert_eq!(exprs_are_equivalent(&a, &b), commutes);
        assert_eq!(exprs_are_equivalent(&b, &a), commutes);
        assert!(exprs_are_equivalent(&a, &a));
    }
}

#[test]
fn operands_change_places_at_every_level() {
    let a = binary(binary(id("x"), Operator::Add, id("y")), Operator::Multiply, number("2"));
    let b = binary(number("2.0"), Operator::Multiply, binary(id("Y"), Operator::Add, id("X")));
    assert!(exprs_are_equivalent(&a, &b));
    assert!(exprs_are_equivalent(&b, &a));
    let c = binary(number("2"), Operator::Multiply, binary(id("y"), Operator::Subtract, id("x")));
    assert!(!exprs_are_equivalent(&a, &c));
}

#[test]
fn parentheses_around_one_expression_do_not_count() {
    let wrap = |e: Expr| Expr::Parenthesized(vec![e]);
    assert!(exprs_are_equivalent(&wrap(id("x")), &id("x")));
    assert!(exprs_are_equivalent(&id("x"), &wrap(id("x"))));
    assert!(exprs_are_equivalent(&wrap(wrap(id("x"))), &id("X")));
    assert!(exprs_are_equivalent(&wrap(wrap(id("x"))), &wrap(id("x"))));
    assert!(!exprs_are_equivalent(&wrap(id("x")), &id("y")));
    let two = Expr::Parenthesized(vec![id("x"), id("y")]);
    assert!(!exprs_are_equivalent(&two, &id("x")));
    assert!(!exprs_are_equivalent(&id("x"), &two));
    assert!(!exprs_are_equivalent(&two, &wrap(id("x"))));
    assert!(exprs_are_equivalent(&two, &Expr::Parenthesized(vec![id("X"), wrap(id("y"))])));
    let none = Expr::Parenthesized(vec![]);
    assert!(exprs_are_equivalent(&none, &Expr::Parenthesized(vec![])));
    assert!(!exprs_are_equivalent(&none, &id("x")));
}

#[test]
fn lists_are_compared_one_by_one() {
    let list = |not: bool, items: Option<Vec<Expr>>| Expr::InList {
        lhs: Box::new(id("x")),
        not,
        rhs: items,
    };
    let a = list(false, Some(vec![number("1"), number("2")]));
    assert!(exprs_are_equivalent(&a, &list(false, Some(vec![number("1.0"), number("2.0")]))));
    assert!(!exprs_are_equivalent(&a, &list(false, Some(vec![number("2"), number("1")]))));
    assert!(!exprs_are_equivalent(&a, &list(true, Some(vec![number("1"), number("2")]))));
    assert!(!exprs_are_equivalent(&a, &list(false, Some(vec![number("1")]))));
    assert!(!exprs_are_equivalent(&a, &list(false, None)));
    assert!(!exprs_are_equivalent(&list(false, None), &a));
    assert!(exprs_are_equivalent(&list(false, None), &list(false, None)));
    assert!(!exprs_are_equivalent(&list(false, None), &list(true, None)));
}

#[test]
fn cases_are_compared_arm_by_arm() {
    let case = |base: Option<&str>, pairs: Vec<(Expr, Expr)>, other: Option<&str>| Expr::Case {
        base: base.map(|b| Box::new(id(b))),
        when_then_pairs: pairs,
        else_expr: other.map(|e| Box::new(id(e))),
    };
    let a = case(Some("x"), vec![(number("1"), id("a"))], Some("z"));
    assert!(exprs_are_equivalent(
        &a,
        &case(Some("x"), vec![(number("1.0"), id("A"))], Some("z"))
    ));
    assert!(!exprs_are_equivalent(&a, &case(Some("X"), vec![(number("1"), id("a"))], Some("z"))));
    assert!(!exprs_are_equivalent(&a, &case(Some("x"), vec![(number("1"), id("a"))], None)));
    assert!(!exprs_are_equivalent(&a, &case(Some("x"), vec![], Some("z"))));
    assert!(!exprs_are_equivalent(&a, &case(Some("x"), vec![(number("1"), id("b"))], Some("z"))));
}

#[test]
fn casts_are_known_by_the_names_of_their_types() {
    let cast = |e: &str, target: Option<Type>| Expr::Cast {
        expr: Box::new(id(e)),
        target,
    };
    let ty = |name: &str, size: Option<TypeSize>| {
        Some(Type {
            name: name.to_string(),
            size,
        })
    };
    let sized = Some(TypeSize::MaxSize(Box::new(number("3"))));
    assert!(exprs_are_equivalent(&cast("x", ty("TEXT", sized)), &cast("X", ty("text", None))));
    assert!(!exprs_are_equivalent(&cast("x", ty("TEXT", None)), &cast("x", ty("BLOB", None))));
    assert!(!exprs_are_equivalent(&cast("x", ty("TEXT", None)), &cast("x", None)));
    assert!(!exprs_are_equivalent(&cast("x", None), &cast("x", ty("TEXT", None))));
    assert!(exprs_are_equivalent(&cast("x", None), &cast("X", None)));
    assert!(!exprs_are_equivalent(&cast("x", None), &cast("y", None)));
}

#[test]
fn collations_and_null_tests_and_unary_operators() {
    let collate = |e: &str, c: &str| Expr::Collate(Box::new(id(e)), c.to_string());
    assert!(exprs_are_equivalent(&collate("x", "NOCASE"), &collate("X", "nocase")));
    assert!(!exprs_are_equivalent(&collate("x", "NOCASE"), &collate("x", "binary")));
    let is_null = |e: &str| Expr::IsNull(Box::new(id(e)));
    let not_null = |e: &str| Expr::NotNull(Box::new(id(e)));
    assert!(exprs_are_equivalent(&is_null("x"), &is_null("X")));
    assert!(exprs_are_equivalent(&not_null("x"), &not_null("X")));
    assert!(!exprs_are_equivalent(&is_null("x"), &not_null("x")));
    let unary = |op: UnaryOperator, e: &str| Expr::Unary(op, Box::new(id(e)));
    assert!(exprs_are_equivalent(
        &unary(UnaryOperator::Negative, "x"),
        &unary(UnaryOperator::Negative, "X")
    ));
    assert!(!exprs_are_equivalent(
        &unary(UnaryOperator::Negative, "x"),
        &unary(UnaryOperator::Positive, "x")
    ));
    let variable = |v: &str| Expr::Variable(v.to_string());
    assert!(exprs_are_equivalent(&variable("a"), &variable("a")));
    assert!(!exprs_are_equivalent(&variable("a"), &variable("A")));
}

#[test]
fn arguments_of_functions_are_compared_as_they_are_written() {
    let call = |name: &str, arg: &str, order: Option<SortOrder>| Expr::FunctionCall {
        name: Id(name.to_string()),
        distinctness: Some(Distinctness::All),
        args: Some(vec![id(arg)]),
        order_by: order.map(|o| {
            vec![SortedColumn {
                expr: id("k"),
                order: Some(o),
                nulls: None,
            }]
        }),
        filter_over: None,
    };
    assert!(exprs_are_equivalent(&call("SUM", "x", None), &call("Sum", "x", None)));
    assert!(!exprs_are_equivalent(&call("SUM", "x", None), &call("SUM", "X", None)));
    assert!(exprs_are_equivalent(
        &call("SUM", "x", Some(SortOrder::Asc)),
        &call("sum", "x", Some(SortOrder::Asc))
    ));
    assert!(!exprs_are_equivalent(
        &call("SUM", "x", Some(SortOrder::Asc)),
        &call("SUM", "x", Some(SortOrder::Desc))
    ));
}

#[test]
fn filters_and_windows_of_star_calls_count() {
    assert!(exprs_are_equivalent(&star("COUNT", None), &star("count", None)));
    assert!(!exprs_are_equivalent(&star("COUNT", None), &star("total", None)));
    let x = || Some(id("x"));
    let filtered = star("count", tail(x(), None));
    assert!(exprs_are_equivalent(&filtered, &star("COUNT", tail(Some(id("X")), None))));
    assert!(!exprs_are_equivalent(&filtered, &star("count", tail(x(), named("w")))));
    assert!(!exprs_are_equivalent(&star("count", tail(x(), named("w"))), &filtered));
    assert!(exprs_are_equivalent(
        &star("count", tail(x(), named("w"))),
        &star("count", tail(x(), named("[W]")))
    ));
    assert!(!exprs_are_equivalent(
        &star("count", tail(x(), named("w"))),
        &star("count", tail(x(), named("v")))
    ));
    assert!(exprs_are_equivalent(
        &star("count", tail(None, named("w"))),
        &star("COUNT", tail(None, named("W")))
    ));
    assert!(!exprs_are_equivalent(
        &star("count", tail(None, named("w"))),
        &star("count", tail(None, named("v")))
    ));
    assert!(!exprs_are_equivalent(
        &star("count", tail(None, named("w"))),
        &star("count", tail(x(), named("w")))
    ));
    assert!(!exprs_are_equivalent(&filtered, &star("count", None)));
}

#[test]
fn frames_of_windows_are_compared() {
    let over = |end: Option<FrameBound>| {
        Some(Over::Window(Window {
            base: None,
            partition_by: Some(vec![id("p")]),
            order_by: None,
            frame_clause: Some(FrameClause {
                mode: FrameMode::Rows,
                start: FrameBound::Preceding(Box::new(number("1"))),
                end,
                exclude: None,
            }),
        }))
    };
    let call = |end: Option<FrameBound>| Expr::FunctionCall {
        name: Id("sum".to_string()),
        distinctness: None,
        args: None,
        order_by: None,
        filter_over: tail(None, over(end)),
    };
    assert!(exprs_are_equivalent(
        &call(Some(FrameBound::CurrentRow)),
        &call(Some(FrameBound::CurrentRow))
    ));
    assert!(!exprs_are_equivalent(
        &call(Some(FrameBound::CurrentRow)),
        &call(Some(FrameBound::UnboundedFollowing))
    ));
    assert!(!exprs_are_equivalent(&call(None), &call(Some(FrameBound::CurrentRow))));
}

#[test]
fn everything_else_is_compared_as_it_is_written() {
    let like = |escape: Option<&str>, op: LikeOperator| Expr::Like {
        lhs: Box::new(id("x")),
        not: false,
        op,
        rhs: Box::new(number("1")),
        escape: escape.map(|e| Box::new(id(e))),
    };
    assert!(exprs_are_equivalent(&like(None, LikeOperator::Glob), &like(None, LikeOperator::Glob)));
    assert!(!exprs_are_equivalent(
        &like(None, LikeOperator::Glob),
        &like(None, LikeOperator::Like)
    ));
    assert!(!exprs_are_equivalent(
        &like(None, LikeOperator::Glob),
        &like(Some("e"), LikeOperator::Glob)
    ));
    let exists = |n: u64| Expr::Exists(Box::new(Select(n)));
    assert!(exprs_are_equivalent(&exists(1), &exists(1)));
    assert!(!exprs_are_equivalent(&exists(1), &exists(2)));
    let subquery = |n: u64| Expr::Subquery(Box::new(Select(n)));
    assert!(exprs_are_equivalent(&subquery(1), &subquery(1)));
    assert!(!exprs_are_equivalent(&subquery(1), &exists(1)));
    let in_select = |n: u64| Expr::InSelect {
        lhs: Box::new(id("x")),
        not: false,
        rhs: Box::new(Select(n)),
    };
    assert!(exprs_are_equivalent(&in_select(3), &in_select(3)));
    assert!(!exprs_are_equivalent(&in_select(3), &in_select(4)));
    let in_table = |t: &str| Expr::InTable {
        lhs: Box::new(id("x")),
        not: false,
        rhs: QualifiedName {
            db_name: None,
            name: Name(t.to_string()),
            alias: None,
        },
        args: None,
    };
    assert!(exprs_are_equivalent(&in_table("t"), &in_table("[T]")));
    assert!(!exprs_are_equivalent(&in_table("t"), &in_table("u")));
    let raise = |r: ResolveType| Expr::Raise(r, Some(Box::new(id("m"))));
    assert!(exprs_are_equivalent(&raise(ResolveType::Abort), &raise(ResolveType::Abort)));
    assert!(!exprs_are_equivalent(&raise(ResolveType::Abort), &raise(ResolveType::Fail)));
    let column = |c: usize| Expr::Column {
        database: None,
        table: 0,
        column: c,
        is_rowid_alias: false,
    };
    assert!(exprs_are_equivalent(&column(1), &column(1)));
    assert!(!exprs_are_equivalent(&column(1), &column(2)));
    let rowid = |t: usize| Expr::RowId {
        database: Some(0),
        table: t,
    };
    assert!(exprs_are_equivalent(&rowid(1), &rowid(1)));
    assert!(!exprs_are_equivalent(&rowid(1), &column(1)));
}

#[test]
fn equivalence_is_carried_on() {
    let a = binary(id("x"), Operator::Add, number("1"));
    let b = Expr::Parenthesized(vec![binary(number("1.0"), Operator::Add, id("X"))]);
    let c = binary(Expr::Parenthesized(vec![id("[x]")]), Operator::Add, number("1e0"));
    assert!(exprs_are_equivalent(&a, &b));
    assert!(exprs_are_equivalent(&b, &c));
    assert!(exprs_are_equivalent(&a, &c));
    let w = |name: &str, window: &str| star(name, tail(Some(id("x")), named(window)));
    assert!(exprs_are_equivalent(&w("count", "w"), &w("COUNT", "[w]")));
    assert!(exprs_are_equivalent(&w("COUNT", "[w]"), &w("Count", "W")));
    assert!(exprs_are_equivalent(&w("count", "w"), &w("Count", "W")));
}

#[test]
fn every_expression_is_equivalent_to_itself() {
    let x = || Box::new(id("x"));
    let parts = vec![
        Expr::InList {
            lhs: x(),
            not: false,
            rhs: None,
        },
        Expr::Cast {
            expr: x(),
            target: None,
        },
        star("count", tail(None, None)),
        star("count", tail(None, named("w"))),
        star("count", tail(Some(id("x")), None)),
        number("1.5"),
        Expr::Case {
            base: None,
            when_then_pairs: vec![(id("x"), number("0x10"))],
            else_expr: None,
        },
        Expr::Parenthesized(vec![id("x"), id("y")]),
    ];
    for part in &parts {
        assert!(exprs_are_equivalent(part, part));
    }
    assert!(!exprs_are_equivalent(&number("NaN"), &number("NaN")));
}

#[test]
fn comparing_stops_at_the_first_difference() {
    let a = binary(id("x"), Operator::Subtract, id("`"));
    let b = binary(id("y"), Operator::Subtract, id("`"));
    assert_eq!(try_exprs_are_equivalent(&a, &b), Some(false));
    assert_eq!(try_exprs_are_equivalent(&a, &a), None);
}
