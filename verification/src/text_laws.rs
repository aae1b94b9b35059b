//! What holds of every text.

use vstd::prelude::*;
use vstd::utf8::*;

use crate::text;

verus! {

/// Two texts that are the same but for case are of the same length, and differ
/// only where one has an ASCII letter and the other its other case.
pub proof fn only_case_may_differ(a: Seq<char>, b: Seq<char>)
    ensures
        text::same_ignoring_case(a, b) <==> a.len() == b.len() && (forall|i: int|
            0 <= i < a.len() ==> {
                ||| #[trigger] a[i] == b[i]
                ||| 'A' <= a[i] <= 'Z' && b[i] as int == a[i] as int + 32
                ||| 'A' <= b[i] <= 'Z' && a[i] as int == b[i] as int + 32
            }),
{
    let x = text::lower_ascii(a);
    let y = text::lower_ascii(b);
    assert(x.len() == a.len() && y.len() == b.len());
    if text::same_ignoring_case(a, b) {
        assert forall|i: int| 0 <= i < a.len() implies ({
            ||| #[trigger] a[i] == b[i]
            ||| 'A' <= a[i] <= 'Z' && b[i] as int == a[i] as int + 32
            ||| 'A' <= b[i] <= 'Z' && a[i] as int == b[i] as int + 32
        }) by {
            assert(x[i] == y[i]);
            lemma_one_case(a[i], b[i]);
        }
    }
    if a.len() == b.len() && (forall|i: int|
        0 <= i < a.len() ==> {
            ||| #[trigger] a[i] == b[i]
            ||| 'A' <= a[i] <= 'Z' && b[i] as int == a[i] as int + 32
            ||| 'A' <= b[i] <= 'Z' && a[i] as int == b[i] as int + 32
        }) {
        assert forall|i: int| 0 <= i < a.len() implies x[i] == y[i] by {
            lemma_one_case(a[i], b[i]);
        }
        assert(x =~= y);
    }
}

proof fn lemma_one_case(c: char, d: char)
    ensures
        text::lower_char(c) == text::lower_char(d) <==> {
            ||| c == d
            ||| 'A' <= c <= 'Z' && d as int == c as int + 32
            ||| 'A' <= d <= 'Z' && c as int == d as int + 32
        },
{
}

/// A text in ASCII in lower case has a small letter for each capital, and all
/// else as it was; any other text is what `str::to_lowercase` makes of it.
pub proof fn lower_case_has_no_capitals(s: Seq<char>)
    ensures
        is_ascii_chars(s) ==> text::lowered(s).len() == s.len() && (forall|i: int|
            0 <= i < s.len() ==> if 'A' <= s[i] <= 'Z' {
                text::lowered(s)[i] as int == s[i] as int + 32
            } else {
                #[trigger] text::lowered(s)[i] == s[i]
            }),
        !is_ascii_chars(s) ==> text::lowered(s) == text::lowercase(s),
{
}

/// A text in ASCII in upper case has a capital for each small letter, and all
/// else as it was; any other text is what `str::to_uppercase` makes of it.
pub proof fn upper_case_has_no_small_letters(s: Seq<char>)
    ensures
        is_ascii_chars(s) ==> text::raised(s).len() == s.len() && (forall|i: int|
            0 <= i < s.len() ==> if 'a' <= s[i] <= 'z' {
                text::raised(s)[i] as int == s[i] as int - 32
            } else {
                #[trigger] text::raised(s)[i] == s[i]
            }),
        !is_ascii_chars(s) ==> text::raised(s) == text::uppercase(s),
{
}

/// A text stands in another if that one is made of it and of what comes before
/// and after it.
pub proof fn what_occurs_is_a_part(needle: Seq<char>, hay: Seq<char>)
    ensures
        text::occurs(needle, hay) <==> exists|x: Seq<char>, y: Seq<char>|
            hay == #[trigger] (x + needle + y),
{
    if text::occurs(needle, hay) {
        let i = choose|i: int| text::occurs_at(needle, hay, i);
        let x = hay.take(i);
        let y = hay.skip(i + needle.len());
        assert forall|k: int| 0 <= k < needle.len() implies hay[i + k] == needle[k] by {
            assert(hay.subrange(i, i + needle.len())[k] == needle[k]);
        }
        assert(hay =~= x + needle + y);
    }
    if exists|x: Seq<char>, y: Seq<char>| hay == #[trigger] (x + needle + y) {
        let (x, y) = choose|x: Seq<char>, y: Seq<char>| hay == #[trigger] (x + needle + y);
        let i = x.len() as int;
        assert(hay.subrange(i, i + needle.len()) =~= needle);
        assert(text::occurs_at(needle, hay, i));
    }
}

/// A text begins with another if something, or nothing, comes after that.
pub proof fn what_begins_is_a_prefix(s: Seq<char>, prefix: Seq<char>)
    ensures
        text::begins_with(s, prefix) <==> exists|t: Seq<char>| s == #[trigger] (prefix + t),
{
    if text::begins_with(s, prefix) {
        assert(s =~= prefix + s.skip(prefix.len() as int));
    }
    if exists|t: Seq<char>| s == #[trigger] (prefix + t) {
        let t = choose|t: Seq<char>| s == #[trigger] (prefix + t);
        assert(s.take(prefix.len() as int) =~= prefix);
    }
}

/// A text is split at the first separator: what comes before it holds none.
pub proof fn the_first_separator_splits(x: Seq<char>, c: char, y: Seq<char>)
    requires
        !x.contains(c),
    ensures
        text::split_at_first(x + seq![c] + y, c) == Some((x, y)),
        text::before(x + seq![c] + y, c) == x,
        text::after(x + seq![c] + y, c) == y,
        text::split_at_first(x, c) is None,
        text::before(x, c) == x,
        text::after(x, c).len() == 0,
{
    let s = x + seq![c] + y;
    let n = x.len() as int;
    assert(s[n] == c);
    assert forall|j: int| 0 <= j < n implies s[j] != c by {
        assert(s[j] == x[j]);
        assert(x.contains(x[j]));
    }
    text::lemma_position(s, c, n);
    assert(s.take(n) =~= x);
    assert(s.skip(n + 1) =~= y);
}

/// The parts of a text are those of what comes before any separator and those
/// of what comes after it; a text without separators is one part.
pub proof fn separators_part(x: Seq<char>, c: char, y: Seq<char>)
    ensures
        text::parts(x + seq![c] + y, c) == text::parts(x, c) + text::parts(y, c),
        !x.contains(c) ==> text::parts(x, c) == seq![x],
{
    text::lemma_parts_joined(x, y, c);
}

/// The text is all white space.
pub open spec fn is_blank(s: Seq<char>) -> bool {
    forall|i: int|
        0 <= i < s.len() ==> {
            let n = #[trigger] s[i] as int;
            ||| 9 <= n <= 13
            ||| n == 32
            ||| n == 0x85
            ||| n == 0xa0
            ||| n == 0x1680
            ||| 0x2000 <= n <= 0x200a
            ||| n == 0x2028
            ||| n == 0x2029
            ||| n == 0x202f
            ||| n == 0x205f
            ||| n == 0x3000
        }
}

/// White space around a text is trimmed, and nothing else.
pub proof fn white_space_around_is_trimmed(w: Seq<char>, s: Seq<char>, v: Seq<char>)
    requires
        is_blank(w),
        is_blank(v),
        s.len() > 0 ==> !is_blank(seq![s[0]]) && !is_blank(seq![s.last()]),
    ensures
        text::trimmed(w + s + v) == s,
{
    lemma_blank_start(w, s + v);
    assert(w + (s + v) =~= w + s + v);
    if s.len() == 0 {
        lemma_blank_start(v, s);
        assert(s + v =~= v);
        assert(v + s =~= v);
        assert(text::trimmed_start(s) =~= s);
        assert(text::trimmed_end(s) =~= s);
    } else {
        assert(seq![s[0]][0] == s[0]);
        assert((s + v)[0] == s[0]);
        assert(!text::is_white_space(s[0]));
        lemma_blank_end(s, v);
        assert(seq![s.last()][0] == s.last());
        assert(!text::is_white_space(s.last()));
    }
}

proof fn lemma_blank_start(w: Seq<char>, s: Seq<char>)
    requires
        is_blank(w),
    ensures
        text::trimmed_start(w + s) == text::trimmed_start(s),
    decreases w.len(),
{
    if w.len() == 0 {
        assert(w + s =~= s);
    } else {
        assert(text::is_white_space(w[0]));
        assert((w + s)[0] == w[0]);
        assert((w + s).drop_first() =~= w.drop_first() + s);
        assert forall|i: int| 0 <= i < w.drop_first().len() implies w.drop_first()[i] == w[i
            + 1] by {}
        assert(is_blank(w.drop_first()));
        lemma_blank_start(w.drop_first(), s);
    }
}

proof fn lemma_blank_end(s: Seq<char>, v: Seq<char>)
    requires
        is_blank(v),
    ensures
        text::trimmed_end(s + v) == text::trimmed_end(s),
    decreases v.len(),
{
    if v.len() == 0 {
        assert(s + v =~= s);
    } else {
        assert(text::is_white_space(v.last()));
        assert((s + v).last() == v.last());
        assert((s + v).drop_last() =~= s + v.drop_last());
        assert(is_blank(v.drop_last()));
        lemma_blank_end(s, v.drop_last());
    }
}

/// The number that decimal digits mean.
pub open spec fn number_of(s: Seq<char>) -> int
    decreases s.len(),
{
    if s.len() == 0 {
        0
    } else {
        10 * number_of(s.drop_last()) + (s.last() as int - '0' as int)
    }
}

/// A number in decimal notation is made of digits, without a zero at its front
/// unless it is zero, and means the number.
pub proof fn decimal_notation_means_the_number(n: nat)
    ensures
        number_of(text::decimal(n)) == n,
        text::decimal(n).len() > 0,
        forall|i: int|
            0 <= i < text::decimal(n).len() ==> '0' <= #[trigger] text::decimal(n)[i] <= '9',
        n > 0 ==> text::decimal(n)[0] != '0',
        n == 0 ==> text::decimal(n).len() == 1,
    decreases n,
{
    if n < 10 {
        assert(text::decimal(n).drop_last() =~= Seq::empty());
        assert(number_of(Seq::empty()) == 0);
    } else {
        decimal_notation_means_the_number(n / 10);
        let front = text::decimal(n / 10);
        assert(text::decimal(n).drop_last() =~= front);
        assert(text::decimal(n).last() == text::decimal_digit(n % 10));
    }
}

} // verus!
