//! Identifiers, names and literals.

use limbo_util::ast::{Expr, Id, Literal, Name, Number};
use limbo_util::equivalence::{
    check_literal_equivalency, cmp_numeric_strings, exprs_are_equivalent,
    try_check_literal_equivalency, try_exprs_are_equivalent,
};
use limbo_util::ident::{
    check_ident_equivalency, lone_quote, normalize_ident, strip_quotes,
    try_check_ident_equivalency,
};
use limbo_util::name::eq_names;

fn number(text: &str) -> Number {
    Number {
        text: text.to_string(),
        value: text.parse::<f64>().ok().map(f64::to_bits),
    }
}

fn name(text: &str) -> Expr {
    Expr::Name(Name(text.to_string()))
}

fn id(text: &str) -> Expr {
    Expr::Id(Id(text.to_string()))
}

#[test]
fn identifiers_are_stored_in_lower_case() {
    assert_eq!(normalize_ident("FooBar"), "foobar");
    assert_eq!(normalize_ident("[Foo Bar]"), "foo bar");
    assert_eq!(normalize_ident("`Foo"), "`foo");
    assert_eq!(normalize_ident("\"\""), "");
    assert_eq!(normalize_ident(""), "");
    assert_eq!(normalize_ident("\"foo]"), "\"foo]");
    assert_eq!(normalize_ident("'Foo'"), "'foo'");
}

#[test]
fn letters_outside_ascii_have_a_lower_case() {
    assert_eq!(normalize_ident("[ÄÖÜ]"), "äöü");
    assert_eq!(normalize_ident("ὈΔΥΣΣΕΎΣ"), "ὀδυσσεύς");
    assert_eq!(normalize_ident("İ"), "i\u{307}");
}

#[test]
fn only_ascii_letters_are_compared_without_case() {
    assert!(check_ident_equivalency("straßE", "STRAßE"));
    assert!(!check_ident_equivalency("Ä", "ä"));
    assert!(!check_ident_equivalency("foo", "fooo"));
    assert!(check_ident_equivalency("", "[]"));
}

#[test]
fn quotes_of_other_kinds_stay() {
    assert_eq!(strip_quotes("'foo'"), "'foo'");
    assert_eq!(strip_quotes("[foo]"), "foo");
    assert_eq!(strip_quotes("[foo`"), "[foo`");
    assert_eq!(strip_quotes("[é]"), "é");
    assert!(!check_ident_equivalency("'foo'", "foo"));
}

#[test]
fn a_lone_quotation_mark_is_no_identifier() {
    assert!(lone_quote("\""));
    assert!(lone_quote("`"));
    assert!(!lone_quote("["));
    assert!(!lone_quote(""));
    assert!(!lone_quote("\"\""));
    assert_eq!(try_check_ident_equivalency("\"", "a"), None);
    assert_eq!(try_check_ident_equivalency("a", "`"), None);
    assert_eq!(try_check_ident_equivalency("a", "[A]"), Some(true));
    assert_eq!(try_check_ident_equivalency("a", "b"), Some(false));
    assert_eq!(try_exprs_are_equivalent(&id("`"), &id("a")), None);
}

#[test]
fn naming_the_same_is_symmetric_and_transitive() {
    let names = ["foo", "[FOO]", "`Foo`", "\"fOO\""];
    for a in names {
        for b in names {
            assert!(check_ident_equivalency(a, b));
            assert_eq!(normalize_ident(a), normalize_ident(b));
        }
    }
}

#[test]
fn a_normal_form_is_its_own_unless_quotes_are_nested() {
    for a in ["Foo", "[Foo]", "\"a b\""] {
        let normal = normalize_ident(a);
        assert_eq!(normalize_ident(&normal), normal);
    }
    assert_eq!(normalize_ident("\"[Foo]\""), "[foo]");
    assert_eq!(normalize_ident("[foo]"), "foo");
}

#[test]
fn numbers_are_compared_as_numbers() {
    assert!(cmp_numeric_strings(&number("1e3"), &number("1000")));
    assert!(cmp_numeric_strings(&number("-0.0"), &number("0")));
    assert!(!cmp_numeric_strings(&number("1"), &number("2")));
    assert!(!cmp_numeric_strings(&number("NaN"), &number("NaN")));
    assert!(cmp_numeric_strings(&number("inf"), &number("infinity")));
    assert!(!cmp_numeric_strings(&number("inf"), &number("-inf")));
}

#[test]
fn what_reads_as_no_number_is_compared_as_text() {
    assert!(cmp_numeric_strings(&number("0x10"), &number("0x10")));
    assert!(!cmp_numeric_strings(&number("0x10"), &number("0X10")));
    assert!(!cmp_numeric_strings(&number("0x10"), &number("16")));
}

#[test]
fn literals_of_each_kind() {
    let s = |t: &str| Literal::String(t.to_string());
    let b = |t: &str| Literal::Blob(t.to_string());
    let k = |t: &str| Literal::Keyword(t.to_string());
    assert!(check_literal_equivalency(&s("'Foo'"), &s("'fOO'")));
    assert!(check_literal_equivalency(&s("\"foo\""), &s("foo")));
    assert!(check_literal_equivalency(&b("0a"), &b("0a")));
    assert!(!check_literal_equivalency(&b("0a"), &b("0A")));
    assert!(check_literal_equivalency(&k("TRUE"), &k("true")));
    assert!(!check_literal_equivalency(&k("TRUE"), &s("TRUE")));
    assert!(check_literal_equivalency(&Literal::Null, &Literal::Null));
    assert!(check_literal_equivalency(&Literal::CurrentDate, &Literal::CurrentDate));
    assert!(check_literal_equivalency(&Literal::CurrentTime, &Literal::CurrentTime));
    assert!(check_literal_equivalency(
        &Literal::CurrentTimestamp,
        &Literal::CurrentTimestamp
    ));
    assert!(!check_literal_equivalency(&Literal::CurrentDate, &Literal::CurrentTime));
    assert_eq!(try_check_literal_equivalency(&s("\""), &s("a")), None);
    assert_eq!(try_check_literal_equivalency(&s("\""), &b("a")), Some(false));
}

#[test]
fn names_are_equal_but_for_quotes_and_case() {
    assert_eq!(eq_names("foo", "FOO"), Some(true));
    assert_eq!(eq_names("\"foo\"", "[Foo]"), Some(true));
    assert_eq!(eq_names("'foo'", "`fOo`"), Some(true));
    assert_eq!(eq_names("\"a\"\"b\"", "[a\"b]"), Some(true));
    assert_eq!(eq_names("`a``b`", "'a`b'"), Some(true));
    assert_eq!(eq_names("\"a\"\"b\"", "ab"), Some(false));
    assert_eq!(eq_names("foo", "fo"), Some(false));
    assert_eq!(eq_names("fo", "foo"), Some(false));
    assert_eq!(eq_names("", ""), Some(true));
    assert_eq!(eq_names("\"\"", ""), Some(true));
    assert_eq!(eq_names("É", "é"), Some(false));
    assert_eq!(eq_names("a]b", "[A]B]"), Some(true));
}

#[test]
fn names_that_cannot_be_compared() {
    assert_eq!(eq_names("\"foo", "foo"), None);
    assert_eq!(eq_names("foo", "'foo"), None);
    assert_eq!(eq_names("\"", "a"), None);
    assert_eq!(eq_names("[foo", "bar"), None);
    assert_eq!(eq_names("\"a\"b\"", "a"), None);
    assert_eq!(eq_names("a", "\"a\"b\""), None);
    assert_eq!(try_exprs_are_equivalent(&name("[foo"), &name("foo")), None);
}

#[test]
fn names_that_differ_before_they_go_wrong() {
    assert_eq!(eq_names("\"a\"b\"", "x"), Some(false));
    assert_eq!(eq_names("\"é\"b\"", "è"), Some(false));
    assert_eq!(eq_names("\"a\"b\"", ""), Some(false));
    assert_eq!(eq_names("a\"b", "A\"B"), Some(true));
}

#[test]
fn names_stand_for_themselves_in_expressions() {
    assert!(exprs_are_equivalent(&name("\"Foo\""), &name("foo")));
    assert!(!exprs_are_equivalent(&name("foo"), &name("bar")));
    assert!(!exprs_are_equivalent(&name("foo"), &id("foo")));
    assert!(exprs_are_equivalent(&id("'A'"), &id("'a'")));
    let q = |t: &str, c: &str| Expr::Qualified(Name(t.to_string()), Name(c.to_string()));
    assert!(exprs_are_equivalent(&q("T", "[c]"), &q("`t`", "C")));
    assert!(!exprs_are_equivalent(&q("t", "c"), &q("t", "d")));
    let d = |s: &str, t: &str, c: &str| {
        Expr::DoublyQualified(Name(s.to_string()), Name(t.to_string()), Name(c.to_string()))
    };
    assert!(exprs_are_equivalent(&d("main", "T", "[c]"), &d("MAIN", "`t`", "C")));
    assert!(!exprs_are_equivalent(&d("main", "t", "c"), &d("temp", "t", "c")));
}
