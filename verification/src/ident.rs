//! Identifiers, with or without quotes.

use vstd::prelude::*;
use vstd::string::*;
use vstd::utf8::*;

use crate::text;
use crate::text_laws;

verus! {

/// The text begins and ends with a pair of quotes: `"…"`, `[…]` or `` `…` ``.
pub open spec fn is_quoted(s: Seq<char>) -> bool {
    &&& s.len() > 0
    &&& {
        ||| s[0] == '"' && s.last() == '"'
        ||| s[0] == '[' && s.last() == ']'
        ||| s[0] == '`' && s.last() == '`'
    }
}

/// The text is one quotation mark, which opens and closes at once: nothing
/// stands between its quotes, not even an empty text.
pub open spec fn is_lone_quote(s: Seq<char>) -> bool {
    s.len() == 1 && is_quoted(s)
}

/// The text without its quotes, if it has any.
pub open spec fn unquoted(s: Seq<char>) -> Seq<char> {
    if is_quoted(s) {
        s.subrange(1, s.len() - 1)
    } else {
        s
    }
}

/// Two identifiers name the same thing: without their quotes they differ at
/// most in the case of ASCII letters.
pub open spec fn same_ident(a: Seq<char>, b: Seq<char>) -> bool {
    text::same_ignoring_case(unquoted(a), unquoted(b))
}

/// What comparing two identifiers gives: nothing where one of them is a lone
/// quotation mark.
pub open spec fn compare_idents(a: Seq<char>, b: Seq<char>) -> Option<bool> {
    if is_lone_quote(a) || is_lone_quote(b) {
        None
    } else {
        Some(same_ident(a, b))
    }
}

/// Tells whether an identifier is one quotation mark and nothing else.
pub fn lone_quote(identifier: &str) -> (res: bool)
    ensures
        res == is_lone_quote(identifier@),
{
    identifier.unicode_len() == 1 && {
        let c = identifier.get_char(0);
        c == '"' || c == '`'
    }
}

/// The identifier without the quotes around it.
pub fn strip_quotes<'a>(identifier: &'a str) -> (res: &'a str)
    requires
        !is_lone_quote(identifier@),
    ensures
        res@ == unquoted(identifier@),
{
    let len = identifier.unicode_len();
    if len == 0 {
        return identifier;
    }
    let first = identifier.get_char(0);
    let last = identifier.get_char(len - 1);
    if (first == '"' && last == '"') || (first == '[' && last == ']') || (first == '`' && last
        == '`') {
        identifier.substring_char(1, len - 1)
    } else {
        identifier
    }
}

/// The identifier in the form under which it is stored and looked up: without
/// the quotes around it, and in lower case.
pub fn normalize_ident(identifier: &str) -> (res: String)
    requires
        !is_lone_quote(identifier@),
    ensures
        res@ == text::lowered(unquoted(identifier@)),
{
    text::to_lowercase(strip_quotes(identifier))
}

/// Tells whether two identifiers name the same thing.
pub fn check_ident_equivalency(ident1: &str, ident2: &str) -> (res: bool)
    requires
        !is_lone_quote(ident1@),
        !is_lone_quote(ident2@),
    ensures
        res == same_ident(ident1@, ident2@),
{
    text::eq_ignore_ascii_case(strip_quotes(ident1), strip_quotes(ident2))
}

/// `check_ident_equivalency`, or nothing where one of the identifiers is a
/// lone quotation mark.
pub fn try_check_ident_equivalency(ident1: &str, ident2: &str) -> (res: Option<bool>)
    ensures
        res == compare_idents(ident1@, ident2@),
{
    if lone_quote(ident1) || lone_quote(ident2) {
        None
    } else {
        Some(check_ident_equivalency(ident1, ident2))
    }
}

/// Naming the same thing is an equivalence relation.
pub proof fn same_ident_is_an_equivalence(a: Seq<char>, b: Seq<char>, c: Seq<char>)
    ensures
        same_ident(a, a),
        same_ident(a, b) == same_ident(b, a),
        same_ident(a, b) && same_ident(b, c) ==> same_ident(a, c),
{
}

/// An identifier names the same thing with and without quotes around it,
/// whichever the quotes are.
pub proof fn quotes_do_not_matter(a: Seq<char>)
    requires
        !is_quoted(a),
    ensures
        same_ident(seq!['"'] + a + seq!['"'], a),
        same_ident(seq!['['] + a + seq![']'], a),
        same_ident(seq!['`'] + a + seq!['`'], a),
{
    let x = seq!['"'] + a + seq!['"'];
    let y = seq!['['] + a + seq![']'];
    let z = seq!['`'] + a + seq!['`'];
    assert(unquoted(x) =~= a);
    assert(unquoted(y) =~= a);
    assert(unquoted(z) =~= a);
}

/// Two identifiers in ASCII name the same thing exactly if they have the same
/// normal form.
pub proof fn normal_forms_agree(a: Seq<char>, b: Seq<char>)
    requires
        is_ascii_chars(a),
        is_ascii_chars(b),
        !is_lone_quote(a),
        !is_lone_quote(b),
    ensures
        same_ident(a, b) <==> text::lowered(unquoted(a)) == text::lowered(unquoted(b)),
{
    assert(is_ascii_chars(unquoted(a)));
    assert(is_ascii_chars(unquoted(b)));
}

/// The normal form of an identifier in ASCII is its own normal form, unless
/// there were quotes inside its quotes.
pub proof fn normal_forms_stay(a: Seq<char>)
    requires
        is_ascii_chars(a),
        !is_lone_quote(a),
        !is_quoted(unquoted(a)),
    ensures
        text::lowered(unquoted(text::lowered(unquoted(a)))) == text::lowered(unquoted(a)),
{
    let inner = unquoted(a);
    assert(is_ascii_chars(inner));
    let low = text::lowered(inner);
    assert forall|i: int| 0 <= i < low.len() implies '\0' <= #[trigger] low[i] <= '\u{7f}'
        && text::lower_char(low[i]) == low[i] by {
        assert('\0' <= inner[i] <= '\u{7f}');
        assert(low[i] == text::lower_char(inner[i]));
    }
    assert(!is_quoted(low));
    assert(text::lower_ascii(low) =~= low);
}

/// Quotes around a text are taken away, whatever it holds; a text that is not
/// between quotes stays.
pub proof fn quotes_are_taken_away(a: Seq<char>)
    ensures
        unquoted(seq!['"'] + a + seq!['"']) == a,
        unquoted(seq!['['] + a + seq![']']) == a,
        unquoted(seq!['`'] + a + seq!['`']) == a,
        !(a.len() > 1 && a[0] == '"' && a.last() == '"') && !(a.len() > 1 && a[0] == '['
            && a.last() == ']') && !(a.len() > 1 && a[0] == '`' && a.last() == '`') && a
            != seq!['"'] && a != seq!['`'] ==> unquoted(a) == a,
{
    let x = seq!['"'] + a + seq!['"'];
    let y = seq!['['] + a + seq![']'];
    let z = seq!['`'] + a + seq!['`'];
    assert(unquoted(x) =~= a);
    assert(unquoted(y) =~= a);
    assert(unquoted(z) =~= a);
    if a.len() == 1 {
        assert(a[0] == '"' ==> a =~= seq!['"']);
        assert(a[0] == '`' ==> a =~= seq!['`']);
    }
}

/// Comparing identifiers has no outcome exactly where one is a lone quotation
/// mark. It holds exactly where the texts without quotes are of the same length
/// and differ only in the case of ASCII letters.
pub proof fn identifiers_differ_only_in_case(a: Seq<char>, b: Seq<char>)
    ensures
        compare_idents(a, b) is None <==> a == seq!['"'] || a == seq!['`'] || b == seq!['"'] || b
            == seq!['`'],
        compare_idents(a, b) == Some(true) ==> unquoted(a).len() == unquoted(b).len() && (
        forall|i: int|
            0 <= i < unquoted(a).len() ==> {
                let (c, d) = (#[trigger] unquoted(a)[i], unquoted(b)[i]);
                ||| c == d
                ||| 'A' <= c <= 'Z' && d as int == c as int + 32
                ||| 'A' <= d <= 'Z' && c as int == d as int + 32
            }),
        compare_idents(a, b) == Some(false) ==> unquoted(a).len() != unquoted(b).len() || (
        exists|i: int|
            0 <= i < unquoted(a).len() && {
                let (c, d) = (#[trigger] unquoted(a)[i], unquoted(b)[i]);
                &&& c != d
                &&& !('A' <= c <= 'Z' && d as int == c as int + 32)
                &&& !('A' <= d <= 'Z' && c as int == d as int + 32)
            }),
{
    text_laws::only_case_may_differ(unquoted(a), unquoted(b));
    assert(a.len() == 1 ==> a =~= seq![a[0]]);
    assert(b.len() == 1 ==> b =~= seq![b[0]]);
    assert(seq!['"'][0] == '"');
    assert(seq!['`'][0] == '`');
}

} // verus!
