//! Strings as sequences of characters.

use vstd::prelude::*;
use vstd::string::*;
use vstd::utf8::*;

verus! {

/// The lower-case form of an ASCII letter; any other character as it is.
pub open spec fn lower_char(c: char) -> char {
    if 'A' <= c <= 'Z' {
        (c as u32 + 32) as char
    } else {
        c
    }
}

/// The upper-case form of an ASCII letter; any other character as it is.
pub open spec fn upper_char(c: char) -> char {
    if 'a' <= c <= 'z' {
        (c as u32 - 32) as char
    } else {
        c
    }
}

/// A text with its ASCII letters in lower case.
pub open spec fn lower_ascii(s: Seq<char>) -> Seq<char> {
    s.map_values(|c: char| lower_char(c))
}

/// A text with its ASCII letters in upper case.
pub open spec fn upper_ascii(s: Seq<char>) -> Seq<char> {
    s.map_values(|c: char| upper_char(c))
}

/// Two texts are the same but for the case of ASCII letters.
pub open spec fn same_ignoring_case(a: Seq<char>, b: Seq<char>) -> bool {
    lower_ascii(a) == lower_ascii(b)
}

/// `needle` stands somewhere in `hay`.
pub open spec fn occurs(needle: Seq<char>, hay: Seq<char>) -> bool {
    exists|i: int| occurs_at(needle, hay, i)
}

/// `needle` stands in `hay` from position `i` on.
pub open spec fn occurs_at(needle: Seq<char>, hay: Seq<char>, i: int) -> bool {
    0 <= i <= hay.len() - needle.len() && hay.subrange(i, i + needle.len()) == needle
}

/// The position of the first `c` in `s`; the length of `s` if there is none.
pub open spec fn position(s: Seq<char>, c: char) -> int
    decreases s.len(),
{
    if s.len() == 0 || s[0] == c {
        0
    } else {
        1 + position(s.drop_first(), c)
    }
}

/// What stands before and after the first `c` of `s`, if there is one.
pub open spec fn split_at_first(s: Seq<char>, c: char) -> Option<(Seq<char>, Seq<char>)> {
    if s.contains(c) {
        Some((s.take(position(s, c)), s.skip(position(s, c) + 1)))
    } else {
        None
    }
}

/// The parts of `s` between the separators `c`, in order.
pub open spec fn parts(s: Seq<char>, c: char) -> Seq<Seq<char>>
    decreases s.len(),
{
    if s.contains(c) && 0 <= position(s, c) < s.len() {
        seq![s.take(position(s, c))] + parts(s.skip(position(s, c) + 1), c)
    } else {
        seq![s]
    }
}

/// The characters that Unicode calls white space.
pub open spec fn is_white_space(c: char) -> bool {
    ||| '\u{9}' <= c <= '\u{d}'
    ||| c == ' '
    ||| c == '\u{85}'
    ||| c == '\u{a0}'
    ||| c == '\u{1680}'
    ||| '\u{2000}' <= c <= '\u{200a}'
    ||| c == '\u{2028}'
    ||| c == '\u{2029}'
    ||| c == '\u{202f}'
    ||| c == '\u{205f}'
    ||| c == '\u{3000}'
}

/// `s` from its first character that is no white space on.
pub open spec fn trimmed_start(s: Seq<char>) -> Seq<char>
    decreases s.len(),
{
    if s.len() > 0 && is_white_space(s[0]) {
        trimmed_start(s.drop_first())
    } else {
        s
    }
}

/// `s` up to its last character that is no white space.
pub open spec fn trimmed_end(s: Seq<char>) -> Seq<char>
    decreases s.len(),
{
    if s.len() > 0 && is_white_space(s.last()) {
        trimmed_end(s.drop_last())
    } else {
        s
    }
}

/// `s` without the white space at its ends.
pub open spec fn trimmed(s: Seq<char>) -> Seq<char> {
    trimmed_end(trimmed_start(s))
}

/// What `str::to_lowercase` makes of a text that is not all ASCII.
pub uninterp spec fn lowercase(s: Seq<char>) -> Seq<char>;

/// What `str::to_uppercase` makes of a text that is not all ASCII.
pub uninterp spec fn uppercase(s: Seq<char>) -> Seq<char>;

/// A text in lower case.
pub open spec fn lowered(s: Seq<char>) -> Seq<char> {
    if is_ascii_chars(s) {
        lower_ascii(s)
    } else {
        lowercase(s)
    }
}

/// A text in upper case.
pub open spec fn raised(s: Seq<char>) -> Seq<char> {
    if is_ascii_chars(s) {
        upper_ascii(s)
    } else {
        uppercase(s)
    }
}

/// `str::to_lowercase`: the text in lower case, as Unicode maps it. Of a text
/// in ASCII, that changes the letters from `A` to `Z` and nothing else.
#[verifier::external_body]
pub(crate) fn to_lowercase(s: &str) -> (res: String)
    ensures
        is_ascii_chars(s@) ==> res@ == lower_ascii(s@),
        !is_ascii_chars(s@) ==> res@ == lowercase(s@),
{
    s.to_lowercase()
}

/// `str::to_uppercase`: the text in upper case, as Unicode maps it. Of a text
/// in ASCII, that changes the letters from `a` to `z` and nothing else.
#[verifier::external_body]
pub(crate) fn to_uppercase(s: &str) -> (res: String)
    ensures
        is_ascii_chars(s@) ==> res@ == upper_ascii(s@),
        !is_ascii_chars(s@) ==> res@ == uppercase(s@),
{
    s.to_uppercase()
}

/// `String::push` puts one character at the end.
pub assume_specification[ std::string::String::push ](s: &mut std::string::String, ch: char)
    ensures
        final(s)@ == old(s)@.push(ch),
;

/// The characters of a string, in order.
pub(crate) fn chars_of(s: &str) -> (res: Vec<char>)
    ensures
        res@ == s@,
{
    let mut res: Vec<char> = Vec::new();
    for c in it: s.chars()
        invariant
            res@ == it.seq().take(it.index() as int),
            it.seq() == s@,
    {
        proof {
            assert(it.seq().take(it.index() + 1) =~= it.seq().take(it.index() as int).push(c));
        }
        res.push(c);
    }
    proof {
        assert(s@.take(s@.len() as int) =~= s@);
    }
    res
}

/// Tells whether two strings hold the same text.
pub(crate) fn same_text(a: &str, b: &str) -> (res: bool)
    ensures
        res == (a@ == b@),
{
    let x = chars_of(a);
    let y = chars_of(b);
    if x.len() != y.len() {
        return false;
    }
    for i in 0..x.len()
        invariant
            x@ == a@,
            y@ == b@,
            x@.len() == y@.len(),
            x@.take(i as int) == y@.take(i as int),
    {
        if x[i] != y[i] {
            proof {
                assert(a@[i as int] != b@[i as int]);
            }
            return false;
        }
        proof {
            assert(x@.take(i + 1) =~= x@.take(i as int).push(x@[i as int]));
            assert(y@.take(i + 1) =~= y@.take(i as int).push(y@[i as int]));
        }
    }
    proof {
        assert(x@.take(x@.len() as int) =~= x@);
        assert(y@.take(y@.len() as int) =~= y@);
    }
    true
}

/// The lower-case form of an ASCII letter.
pub(crate) fn to_lower_char(c: char) -> (res: char)
    ensures
        res == lower_char(c),
{
    if 'A' <= c && c <= 'Z' {
        ((c as u8) + 32) as char
    } else {
        c
    }
}

/// Tells whether two strings hold the same text but for the case of ASCII letters.
pub(crate) fn eq_ignore_ascii_case(a: &str, b: &str) -> (res: bool)
    ensures
        res == same_ignoring_case(a@, b@),
{
    let x = chars_of(a);
    let y = chars_of(b);
    proof {
        assert(lower_ascii(a@).len() == a@.len());
        assert(lower_ascii(b@).len() == b@.len());
    }
    if x.len() != y.len() {
        return false;
    }
    for i in 0..x.len()
        invariant
            x@ == a@,
            y@ == b@,
            x@.len() == y@.len(),
            forall|j: int| 0 <= j < i ==> lower_char(#[trigger] x@[j]) == lower_char(y@[j]),
    {
        if to_lower_char(x[i]) != to_lower_char(y[i]) {
            proof {
                assert(lower_ascii(a@)[i as int] != lower_ascii(b@)[i as int]);
            }
            return false;
        }
    }
    proof {
        assert(lower_ascii(a@) =~= lower_ascii(b@));
    }
    true
}

/// Tells whether `needle` stands in `hay` from position `i` on.
fn stands_at(needle: &Vec<char>, hay: &Vec<char>, i: usize) -> (res: bool)
    requires
        i + needle@.len() <= hay@.len(),
    ensures
        res == occurs_at(needle@, hay@, i as int),
{
    let end = hay.len();
    for j in 0..needle.len()
        invariant
            end == hay@.len(),
            i + needle@.len() <= hay@.len(),
            forall|k: int| 0 <= k < j ==> hay@[i + k] == #[trigger] needle@[k],
    {
        if hay[i + j] != needle[j] {
            proof {
                assert(hay@.subrange(i as int, i + needle@.len())[j as int] != needle@[j as int]);
            }
            return false;
        }
    }
    proof {
        assert(hay@.subrange(i as int, i + needle@.len()) =~= needle@);
    }
    true
}

/// Tells whether `needle` stands somewhere in `hay`.
pub(crate) fn contains(hay: &str, needle: &str) -> (res: bool)
    ensures
        res == occurs(needle@, hay@),
{
    let x = chars_of(needle);
    let y = chars_of(hay);
    if x.len() > y.len() {
        return false;
    }
    let last = y.len() - x.len();
    let mut i: usize = 0;
    while i <= last
        invariant
            x@ == needle@,
            y@ == hay@,
            last == y@.len() - x@.len(),
            i <= last + 1,
            forall|k: int| 0 <= k < i ==> !#[trigger] occurs_at(needle@, hay@, k),
        decreases last + 1 - i,
    {
        if stands_at(&x, &y, i) {
            return true;
        }
        if i == last {
            return false;
        }
        i = i + 1;
    }
    false
}

/// `s` begins with `prefix`.
pub open spec fn begins_with(s: Seq<char>, prefix: Seq<char>) -> bool {
    prefix.len() <= s.len() && s.take(prefix.len() as int) == prefix
}

/// What stands before the first `c` of `s`, or all of it.
pub open spec fn before(s: Seq<char>, c: char) -> Seq<char> {
    match split_at_first(s, c) {
        Some(halves) => halves.0,
        None => s,
    }
}

/// What stands after the first `c` of `s`, or nothing.
pub open spec fn after(s: Seq<char>, c: char) -> Seq<char> {
    match split_at_first(s, c) {
        Some(halves) => halves.1,
        None => Seq::empty(),
    }
}

/// What follows `prefix` in `s`, if `s` begins with it.
pub(crate) fn strip_prefix<'a>(s: &'a str, prefix: &str) -> (res: Option<&'a str>)
    ensures
        match res {
            Some(rest) => begins_with(s@, prefix@) && rest@ == s@.skip(prefix@.len() as int),
            None => !begins_with(s@, prefix@),
        },
{
    let n = prefix.unicode_len();
    let len = s.unicode_len();
    if n > len {
        return None;
    }
    if same_text(s.substring_char(0, n), prefix) {
        Some(s.substring_char(n, len))
    } else {
        None
    }
}

/// The first of the parts of `s`, and those after it.
pub(crate) proof fn lemma_parts(s: Seq<char>, c: char)
    ensures
        match split_at_first(s, c) {
            Some((first, rest)) => {
                &&& parts(s, c) == seq![first] + parts(rest, c)
                &&& rest.len() < s.len()
            },
            None => parts(s, c) == seq![s],
        },
{
    if s.contains(c) {
        lemma_position_in_range(s, c);
    }
}

/// The parts of two texts joined by `c` are the parts of both.
pub(crate) proof fn lemma_parts_joined(a: Seq<char>, b: Seq<char>, c: char)
    ensures
        parts(a + seq![c] + b, c) == parts(a, c) + parts(b, c),
    decreases a.len(),
{
    let whole = a + seq![c] + b;
    lemma_parts(a, c);
    lemma_parts(whole, c);
    assert(whole[a.len() as int] == c);
    if a.contains(c) {
        lemma_position_in_range(a, c);
        let n = position(a, c);
        lemma_before_position(a, c);
        assert forall|j: int| 0 <= j < n implies whole[j] != c by {
            assert(whole[j] == a[j]);
        }
        lemma_position(whole, c, n);
        let rest = a.skip(n + 1);
        assert(whole.take(n) =~= a.take(n));
        assert(whole.skip(n + 1) =~= rest + seq![c] + b);
        lemma_parts_joined(rest, b, c);
        assert(parts(whole, c) =~= parts(a, c) + parts(b, c));
    } else {
        let n = a.len() as int;
        assert forall|j: int| 0 <= j < n implies whole[j] != c by {
            assert(whole[j] == a[j]);
            assert(a.contains(a[j]));
        }
        lemma_position(whole, c, n);
        assert(whole.take(n) =~= a);
        assert(whole.skip(n + 1) =~= b);
        assert(parts(whole, c) =~= parts(a, c) + parts(b, c));
    }
}

/// Before the first `c` there is none.
proof fn lemma_before_position(s: Seq<char>, c: char)
    ensures
        0 <= position(s, c) <= s.len(),
        forall|j: int| 0 <= j < position(s, c) ==> s[j] != c,
    decreases s.len(),
{
    if s.len() > 0 && s[0] != c {
        let rest = s.drop_first();
        lemma_before_position(rest, c);
        assert forall|j: int| 0 <= j < position(s, c) implies s[j] != c by {
            if j > 0 {
                assert(rest[j - 1] == s[j]);
            }
        }
    }
}

proof fn lemma_position_in_range(s: Seq<char>, c: char)
    requires
        s.contains(c),
    ensures
        0 <= position(s, c) < s.len(),
        s[position(s, c)] == c,
    decreases s.len(),
{
    if s[0] != c {
        let i = choose|i: int| 0 <= i < s.len() && s[i] == c;
        assert(s.drop_first()[i - 1] == c);
        lemma_position_in_range(s.drop_first(), c);
    }
}

/// The first `c` stands at the first position that has one.
pub(crate) proof fn lemma_position(s: Seq<char>, c: char, i: int)
    requires
        0 <= i <= s.len(),
        forall|j: int| 0 <= j < i ==> s[j] != c,
        i < s.len() ==> s[i] == c,
    ensures
        position(s, c) == i,
    decreases i,
{
    if i > 0 {
        lemma_position(s.drop_first(), c, i - 1);
    }
}

/// What stands before and after the first `c` of `s`, if there is one.
pub(crate) fn split_once<'a>(s: &'a str, c: char) -> (res: Option<(&'a str, &'a str)>)
    ensures
        match res {
            Some(halves) => split_at_first(s@, c) == Some((halves.0@, halves.1@)),
            None => split_at_first(s@, c) is None,
        },
{
    let chars = chars_of(s);
    for i in 0..chars.len()
        invariant
            chars@ == s@,
            forall|j: int| 0 <= j < i ==> chars@[j] != c,
    {
        if chars[i] == c {
            proof {
                lemma_position(s@, c, i as int);
                assert(s@.contains(c)) by {
                    assert(s@[i as int] == c);
                }
                assert(s@.take(i as int) =~= s@.subrange(0, i as int));
                assert(s@.skip(i + 1) =~= s@.subrange(i + 1, s@.len() as int));
            }
            return Some((s.substring_char(0, i), s.substring_char(i + 1, chars.len())));
        }
    }
    None
}

proof fn lemma_trimmed_start(s: Seq<char>, i: int)
    requires
        0 <= i <= s.len(),
        forall|j: int| 0 <= j < i ==> is_white_space(s[j]),
        i < s.len() ==> !is_white_space(s[i]),
    ensures
        trimmed_start(s) == s.skip(i),
    decreases i,
{
    if i > 0 {
        assert(is_white_space(s[0]));
        lemma_trimmed_start(s.drop_first(), i - 1);
        assert(s.drop_first().skip(i - 1) =~= s.skip(i));
    } else {
        assert(s.skip(0) =~= s);
    }
}

proof fn lemma_trimmed_end(s: Seq<char>, i: int)
    requires
        0 <= i <= s.len(),
        forall|j: int| i <= j < s.len() ==> is_white_space(s[j]),
        i > 0 ==> !is_white_space(s[i - 1]),
    ensures
        trimmed_end(s) == s.take(i),
    decreases s.len() - i,
{
    if i < s.len() {
        assert(is_white_space(s.last()));
        lemma_trimmed_end(s.drop_last(), i);
        assert(s.drop_last().take(i) =~= s.take(i));
    } else {
        assert(s.take(i) =~= s);
    }
}

fn white_space(c: char) -> (res: bool)
    ensures
        res == is_white_space(c),
{
    ('\u{9}' <= c && c <= '\u{d}') || c == ' ' || c == '\u{85}' || c == '\u{a0}' || c == '\u{1680}'
        || ('\u{2000}' <= c && c <= '\u{200a}') || c == '\u{2028}' || c == '\u{2029}' || c
        == '\u{202f}' || c == '\u{205f}' || c == '\u{3000}'
}

/// The text without the white space at its ends.
pub(crate) fn trim<'a>(s: &'a str) -> (res: &'a str)
    ensures
        res@ == trimmed(s@),
{
    let chars = chars_of(s);
    let mut start: usize = 0;
    while start < chars.len() && white_space(chars[start])
        invariant
            chars@ == s@,
            start <= chars@.len(),
            forall|j: int| 0 <= j < start ==> is_white_space(chars@[j]),
        decreases chars@.len() - start,
    {
        start = start + 1;
    }
    let ghost rest = s@.skip(start as int);
    let mut end: usize = chars.len();
    while end > start && white_space(chars[end - 1])
        invariant
            chars@ == s@,
            start <= end <= chars@.len(),
            forall|j: int| end <= j < chars@.len() ==> is_white_space(chars@[j]),
        decreases end,
    {
        end = end - 1;
    }
    proof {
        lemma_trimmed_start(s@, start as int);
        lemma_trimmed_end(rest, end - start);
        assert(rest.take(end - start) =~= s@.subrange(start as int, end as int));
    }
    s.substring_char(start, end)
}

/// The character of a decimal digit.
pub open spec fn decimal_digit(n: nat) -> char {
    ('0' as u32 + n) as char
}

/// A number in decimal notation.
pub open spec fn decimal(n: nat) -> Seq<char>
    decreases n,
{
    if n < 10 {
        seq![decimal_digit(n)]
    } else {
        decimal(n / 10).push(decimal_digit(n % 10))
    }
}

/// Puts a number in decimal notation at the end of a text.
pub(crate) fn push_decimal(s: &mut String, n: usize)
    ensures
        final(s)@ == old(s)@ + decimal(n as nat),
    decreases n,
{
    let ghost first = s@;
    if n >= 10 {
        push_decimal(s, n / 10);
    }
    s.push(('0' as u8 + (n % 10) as u8) as char);
    proof {
        assert(s@ =~= first + decimal(n as nat));
    }
}

} // verus!
