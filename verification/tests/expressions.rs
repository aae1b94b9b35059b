//! Identifiers and the equivalence of expressions.

use limbo_util::ast::Operator::{Add, Multiply, Subtract};
use limbo_util::ast::{Distinctness, Expr, Id, LikeOperator, Literal, Number, Type};
use limbo_util::equivalence::exprs_are_equivalent;
use limbo_util::ident::{check_ident_equivalency, normalize_ident};

/// A numeric literal, with the number that its text reads as.
fn number(text: &str) -> Number {
    Number {
        text: text.to_string(),
        value: text.parse::<f64>().ok().map(f64::to_bits),
    }
}

#[test]
fn test_normalize_ident() {
    assert_eq!(normalize_ident("foo"), "foo");
    assert_eq!(normalize_ident("`foo`"), "foo");
    assert_eq!(normalize_ident("[foo]"), "foo");
    assert_eq!(normalize_ident("\"foo\""), "foo");
}

#[test]
fn test_basic_addition_exprs_are_equivalent() {
    let expr1 = Expr::Binary(
        Box::new(Expr::Literal(Literal::Numeric(number("826")))),
        Add,
        Box::new(Expr::Literal(Literal::Numeric(number("389")))),
    );
    let expr2 = Expr::Binary(
        Box::new(Expr::Literal(Literal::Numeric(number("389")))),
        Add,
        Box::new(Expr::Literal(Literal::Numeric(number("826")))),
    );
    assert!(exprs_are_equivalent(&expr1, &expr2));
}

#[test]
fn test_addition_expressions_equivalent_normalized() {
    let expr1 = Expr::Binary(
        Box::new(Expr::Literal(Literal::Numeric(number("123.0")))),
        Add,
        Box::new(Expr::Literal(Literal::Numeric(number("243")))),
    );
    let expr2 = Expr::Binary(
        Box::new(Expr::Literal(Literal::Numeric(number("243.0")))),
        Add,
        Box::new(Expr::Literal(Literal::Numeric(number("123")))),
    );
    assert!(exprs_are_equivalent(&expr1, &expr2));
}

#[test]
fn test_subtraction_expressions_not_equivalent() {
    let expr3 = Expr::Binary(
        Box::new(Expr::Literal(Literal::Numeric(number("364")))),
        Subtract,
        Box::new(Expr::Literal(Literal::Numeric(number("22.0")))),
    );
    let expr4 = Expr::Binary(
        Box::new(Expr::Literal(Literal::Numeric(number("22.0")))),
        Subtract,
        Box::new(Expr::Literal(Literal::Numeric(number("364")))),
    );
    assert!(!exprs_are_equivalent(&expr3, &expr4));
}

#[test]
fn test_subtraction_expressions_normalized() {
    let expr3 = Expr::Binary(
        Box::new(Expr::Literal(Literal::Numeric(number("66.0")))),
        Subtract,
        Box::new(Expr::Literal(Literal::Numeric(number("22")))),
    );
    let expr4 = Expr::Binary(
        Box::new(Expr::Literal(Literal::Numeric(number("66")))),
        Subtract,
        Box::new(Expr::Literal(Literal::Numeric(number("22.0")))),
    );
    assert!(exprs_are_equivalent(&expr3, &expr4));
}

#[test]
fn test_expressions_equivalent_case_insensitive_functioncalls() {
    let func1 = Expr::FunctionCall {
        name: Id("SUM".to_string()),
        distinctness: None,
        args: Some(vec![Expr::Id(Id("x".to_string()))]),
        order_by: None,
        filter_over: None,
    };
    let func2 = Expr::FunctionCall {
        name: Id("sum".to_string()),
        distinctness: None,
        args: Some(vec![Expr::Id(Id("x".to_string()))]),
        order_by: None,
        filter_over: None,
    };
    assert!(exprs_are_equivalent(&func1, &func2));

    let func3 = Expr::FunctionCall {
        name: Id("SUM".to_string()),
        distinctness: Some(Distinctness::Distinct),
        args: Some(vec![Expr::Id(Id("x".to_string()))]),
        order_by: None,
        filter_over: None,
    };
    assert!(!exprs_are_equivalent(&func1, &func3));
}

#[test]
fn test_expressions_equivalent_identical_fn_with_distinct() {
    let sum = Expr::FunctionCall {
        name: Id("SUM".to_string()),
        distinctness: None,
        args: Some(vec![Expr::Id(Id("x".to_string()))]),
        order_by: None,
        filter_over: None,
    };
    let sum_distinct = Expr::FunctionCall {
        name: Id("SUM".to_string()),
        distinctness: Some(Distinctness::Distinct),
        args: Some(vec![Expr::Id(Id("x".to_string()))]),
        order_by: None,
        filter_over: None,
    };
    assert!(!exprs_are_equivalent(&sum, &sum_distinct));
}

#[test]
fn test_expressions_equivalent_multiplication() {
    let expr1 = Expr::Binary(
        Box::new(Expr::Literal(Literal::Numeric(number("42.0")))),
        Multiply,
        Box::new(Expr::Literal(Literal::Numeric(number("38")))),
    );
    let expr2 = Expr::Binary(
        Box::new(Expr::Literal(Literal::Numeric(number("38.0")))),
        Multiply,
        Box::new(Expr::Literal(Literal::Numeric(number("42")))),
    );
    assert!(exprs_are_equivalent(&expr1, &expr2));
}

#[test]
fn test_expressions_both_parenthesized_equivalent() {
    let expr1 = Expr::Parenthesized(vec![Expr::Binary(
        Box::new(Expr::Literal(Literal::Numeric(number("683")))),
        Add,
        Box::new(Expr::Literal(Literal::Numeric(number("799.0")))),
    )]);
    let expr2 = Expr::Binary(
        Box::new(Expr::Literal(Literal::Numeric(number("799")))),
        Add,
        Box::new(Expr::Literal(Literal::Numeric(number("683")))),
    );
    assert!(exprs_are_equivalent(&expr1, &expr2));
}

#[test]
fn test_expressions_parenthesized_equivalent() {
    let expr7 = Expr::Parenthesized(vec![Expr::Binary(
        Box::new(Expr::Literal(Literal::Numeric(number("6")))),
        Add,
        Box::new(Expr::Literal(Literal::Numeric(number("7")))),
    )]);
    let expr8 = Expr::Binary(
        Box::new(Expr::Literal(Literal::Numeric(number("6")))),
        Add,
        Box::new(Expr::Literal(Literal::Numeric(number("7")))),
    );
    assert!(exprs_are_equivalent(&expr7, &expr8));
}

#[test]
fn test_like_expressions_equivalent() {
    let expr1 = Expr::Like {
        lhs: Box::new(Expr::Id(Id("name".to_string()))),
        not: false,
        op: LikeOperator::Like,
        rhs: Box::new(Expr::Literal(Literal::String("%john%".to_string()))),
        escape: Some(Box::new(Expr::Literal(Literal::String("\\".to_string())))),
    };
    let expr2 = Expr::Like {
        lhs: Box::new(Expr::Id(Id("name".to_string()))),
        not: false,
        op: LikeOperator::Like,
        rhs: Box::new(Expr::Literal(Literal::String("%john%".to_string()))),
        escape: Some(Box::new(Expr::Literal(Literal::String("\\".to_string())))),
    };
    assert!(exprs_are_equivalent(&expr1, &expr2));
}

#[test]
fn test_expressions_equivalent_like_escaped() {
    let expr1 = Expr::Like {
        lhs: Box::new(Expr::Id(Id("name".to_string()))),
        not: false,
        op: LikeOperator::Like,
        rhs: Box::new(Expr::Literal(Literal::String("%john%".to_string()))),
        escape: Some(Box::new(Expr::Literal(Literal::String("\\".to_string())))),
    };
    let expr2 = Expr::Like {
        lhs: Box::new(Expr::Id(Id("name".to_string()))),
        not: false,
        op: LikeOperator::Like,
        rhs: Box::new(Expr::Literal(Literal::String("%john%".to_string()))),
        escape: Some(Box::new(Expr::Literal(Literal::String("#".to_string())))),
    };
    assert!(!exprs_are_equivalent(&expr1, &expr2));
}

#[test]
fn test_expressions_equivalent_between() {
    let expr1 = Expr::Between {
        lhs: Box::new(Expr::Id(Id("age".to_string()))),
        not: false,
        start: Box::new(Expr::Literal(Literal::Numeric(number("18")))),
        end: Box::new(Expr::Literal(Literal::Numeric(number("65")))),
    };
    let expr2 = Expr::Between {
        lhs: Box::new(Expr::Id(Id("age".to_string()))),
        not: false,
        start: Box::new(Expr::Literal(Literal::Numeric(number("18")))),
        end: Box::new(Expr::Literal(Literal::Numeric(number("65")))),
    };
    assert!(exprs_are_equivalent(&expr1, &expr2));

    // differing BETWEEN bounds
    let expr3 = Expr::Between {
        lhs: Box::new(Expr::Id(Id("age".to_string()))),
        not: false,
        start: Box::new(Expr::Literal(Literal::Numeric(number("20")))),
        end: Box::new(Expr::Literal(Literal::Numeric(number("65")))),
    };
    assert!(!exprs_are_equivalent(&expr1, &expr3));
}

#[test]
fn test_cast_exprs_equivalent() {
    let cast1 = Expr::Cast {
        expr: Box::new(Expr::Literal(Literal::Numeric(number("123")))),
        target: Some(Type {
            name: "INTEGER".to_string(),
            size: None,
        }),
    };

    let cast2 = Expr::Cast {
        expr: Box::new(Expr::Literal(Literal::Numeric(number("123")))),
        target: Some(Type {
            name: "integer".to_string(),
            size: None,
        }),
    };
    assert!(exprs_are_equivalent(&cast1, &cast2));
}

#[test]
fn test_ident_equivalency() {
    assert!(check_ident_equivalency("\"foo\"", "foo"));
    assert!(check_ident_equivalency("[foo]", "foo"));
    assert!(check_ident_equivalency("`FOO`", "foo"));
    assert!(check_ident_equivalency("\"foo\"", "`FOO`"));
    assert!(!check_ident_equivalency("\"foo\"", "[bar]"));
    assert!(!check_ident_equivalency("foo", "\"bar\""));
}
