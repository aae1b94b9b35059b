//! Equality of names, which ignores case and quotes.

use vstd::prelude::*;
use vstd::string::*;

use crate::text;

verus! {

/// The mark that ends a name that begins with `c`, if `c` opens a quoted name.
pub open spec fn closing_mark(c: char) -> Option<char> {
    if c == '"' || c == '`' || c == '\'' {
        Some(c)
    } else if c == '[' {
        Some(']')
    } else {
        None
    }
}

/// The name has quotes around it, or at least begins as if it had.
pub open spec fn begins_quoted(s: Seq<char>) -> bool {
    s.len() > 0 && closing_mark(s[0]) is Some
}

/// Quotes that are opened are closed.
pub open spec fn is_closed(s: Seq<char>) -> bool {
    begins_quoted(s) ==> s.len() > 1 && closing_mark(s[0]) == Some(s.last())
}

/// What stands between the quotes of a name; all of a name that has none.
pub open spec fn body(s: Seq<char>) -> Seq<char> {
    if begins_quoted(s) {
        s.subrange(1, s.len() - 1)
    } else {
        s
    }
}

/// The character that stands in the body of a name only as one of a pair, and
/// then means itself: the quotation mark around it; the null character where
/// there is none, and between brackets.
pub open spec fn paired_char(s: Seq<char>) -> char {
    if begins_quoted(s) && s[0] != '[' {
        s[0]
    } else {
        '\0'
    }
}

/// The body begins with a `q` that is not one of a pair.
pub open spec fn is_stuck(s: Seq<char>, q: char) -> bool {
    s.len() > 0 && s[0] == q && !(s.len() > 1 && s[1] == q)
}

/// The body after its first character, or after its first pair of `q`.
pub open spec fn rest(s: Seq<char>, q: char) -> Seq<char> {
    if s[0] == q {
        s.skip(2)
    } else {
        s.skip(1)
    }
}

/// What comparing two bodies gives, character by character: nothing where it
/// comes to a mark that is not one of a pair.
pub open spec fn compare_bodies(a: Seq<char>, p: char, b: Seq<char>, q: char) -> Option<bool>
    decreases a.len(),
{
    if is_stuck(a, p) || is_stuck(b, q) {
        None
    } else if a.len() == 0 || b.len() == 0 {
        Some(a.len() == b.len())
    } else if text::lower_char(a[0]) != text::lower_char(b[0]) {
        Some(false)
    } else {
        compare_bodies(rest(a, p), p, rest(b, q), q)
    }
}

/// What comparing two names gives: whether they are the same but for quotes and
/// the case of ASCII letters. It gives nothing where quotes are not closed, or
/// where it comes to a quotation mark inside quotes that is not one of a pair.
pub open spec fn compare_names(a: Seq<char>, b: Seq<char>) -> Option<bool> {
    if is_closed(a) && is_closed(b) {
        compare_bodies(body(a), paired_char(a), body(b), paired_char(b))
    } else {
        None
    }
}

/// `==` of `limbo_sqlite3_parser::ast::Name`: two names are equal if they are
/// the same but for quotes and the case of ASCII letters. It panics where it
/// comes to a quotation mark inside quotes that is not one of a pair and, where
/// debug assertions are on, where quotes are not closed.
#[verifier::external_body]
fn names_are_equal(a: &str, b: &str) -> (res: bool)
    requires
        compare_names(a@, b@) is Some,
    ensures
        Some(res) == compare_names(a@, b@),
{
    limbo_sqlite3_parser::ast::Name(a.to_string()) == limbo_sqlite3_parser::ast::Name(
        b.to_string(),
    )
}

/// The body of a name whose quotes are closed, and the character that stands in
/// it only as one of a pair.
fn open_name(name: &str) -> (res: Option<(Vec<char>, char)>)
    ensures
        match res {
            Some((chars, q)) => {
                &&& is_closed(name@)
                &&& chars@ == body(name@)
                &&& q == paired_char(name@)
            },
            None => !is_closed(name@),
        },
{
    let mut chars = text::chars_of(name);
    let len = chars.len();
    if len == 0 {
        return Some((chars, '\0'));
    }
    let first = chars[0];
    let closing = match first {
        '"' | '`' | '\'' => first,
        '[' => ']',
        _ => {
            return Some((chars, '\0'));
        },
    };
    if len == 1 || chars[len - 1] != closing {
        return None;
    }
    let _ = chars.pop();
    let _ = chars.remove(0);
    proof {
        assert(chars@ =~= body(name@));
    }
    let q = if first == '[' {
        '\0'
    } else {
        first
    };
    Some((chars, q))
}

/// Tells whether the first character from `i` on is a `q` that is not one of a
/// pair.
fn stuck_at(s: &Vec<char>, i: usize, q: char) -> (res: bool)
    requires
        i <= s@.len(),
    ensures
        res == is_stuck(s@.skip(i as int), q),
{
    i < s.len() && s[i] == q && !(s.len() - i > 1 && s[i + 1] == q)
}

/// Tells whether comparing two names gives anything.
fn can_be_compared(a: &str, b: &str) -> (res: bool)
    ensures
        res == (compare_names(a@, b@) is Some),
{
    let (x, p) = match open_name(a) {
        Some(opened) => opened,
        None => {
            return false;
        },
    };
    let (y, q) = match open_name(b) {
        Some(opened) => opened,
        None => {
            return false;
        },
    };
    let mut i: usize = 0;
    let mut j: usize = 0;
    proof {
        assert(x@.skip(0) =~= x@);
        assert(y@.skip(0) =~= y@);
    }
    loop
        invariant
            i <= x@.len(),
            j <= y@.len(),
            compare_names(a@, b@) == compare_bodies(x@.skip(i as int), p, y@.skip(j as int), q),
        decreases x@.len() - i,
    {
        if stuck_at(&x, i, p) || stuck_at(&y, j, q) {
            return false;
        }
        if i == x.len() || j == y.len() {
            return true;
        }
        if text::to_lower_char(x[i]) != text::to_lower_char(y[j]) {
            return true;
        }
        let m: usize = if x[i] == p {
            2
        } else {
            1
        };
        let n: usize = if y[j] == q {
            2
        } else {
            1
        };
        proof {
            assert(rest(x@.skip(i as int), p) =~= x@.skip(i + m));
            assert(rest(y@.skip(j as int), q) =~= y@.skip(j + n));
        }
        i = i + m;
        j = j + n;
    }
}

/// Tells whether two names are equal; nothing where comparing them gives
/// nothing.
pub fn eq_names(a: &str, b: &str) -> (res: Option<bool>)
    ensures
        res == compare_names(a@, b@),
{
    if can_be_compared(a, b) {
        Some(names_are_equal(a, b))
    } else {
        None
    }
}

proof fn lemma_bodies_symmetric(a: Seq<char>, p: char, b: Seq<char>, q: char)
    ensures
        compare_bodies(a, p, b, q) == compare_bodies(b, q, a, p),
    decreases a.len(),
{
    if a.len() > 0 && b.len() > 0 && !is_stuck(a, p) {
        lemma_bodies_symmetric(rest(a, p), p, rest(b, q), q);
    }
}

proof fn lemma_bodies_reflexive(a: Seq<char>, p: char)
    ensures
        compare_bodies(a, p, a, p) != Some(false),
    decreases a.len(),
{
    if a.len() > 0 && !is_stuck(a, p) {
        lemma_bodies_reflexive(rest(a, p), p);
    }
}

proof fn lemma_bodies_transitive(
    a: Seq<char>,
    p: char,
    b: Seq<char>,
    q: char,
    c: Seq<char>,
    r: char,
)
    requires
        compare_bodies(a, p, b, q) == Some(true),
        compare_bodies(b, q, c, r) == Some(true),
    ensures
        compare_bodies(a, p, c, r) == Some(true),
    decreases a.len(),
{
    if a.len() > 0 {
        lemma_bodies_transitive(rest(a, p), p, rest(b, q), q, rest(c, r), r);
    }
}

/// Equality of names does not depend on which of the two comes first.
pub proof fn equality_of_names_is_symmetric(a: Seq<char>, b: Seq<char>)
    ensures
        compare_names(a, b) == compare_names(b, a),
{
    lemma_bodies_symmetric(body(a), paired_char(a), body(b), paired_char(b));
}

/// A name equals itself, wherever the comparison has an outcome.
pub proof fn equality_of_names_is_reflexive(a: Seq<char>)
    ensures
        compare_names(a, a) != Some(false),
{
    lemma_bodies_reflexive(body(a), paired_char(a));
}

/// Two names that equal a third one equal each other.
pub proof fn equality_of_names_is_transitive(a: Seq<char>, b: Seq<char>, c: Seq<char>)
    requires
        compare_names(a, b) == Some(true),
        compare_names(b, c) == Some(true),
    ensures
        compare_names(a, c) == Some(true),
{
    lemma_bodies_transitive(
        body(a),
        paired_char(a),
        body(b),
        paired_char(b),
        body(c),
        paired_char(c),
    );
}

/// A text with every `q` in it twice.
pub open spec fn doubled(s: Seq<char>, q: char) -> Seq<char>
    decreases s.len(),
{
    if s.len() == 0 {
        s
    } else if s[0] == q {
        seq![q, q] + doubled(s.skip(1), q)
    } else {
        seq![s[0]] + doubled(s.skip(1), q)
    }
}

/// `n` is a way to write the name `s`: as it is, unless it would seem quoted; or
/// between quotation marks, with those inside it doubled; or between brackets.
pub open spec fn is_written(n: Seq<char>, s: Seq<char>) -> bool {
    ||| n == s && !s.contains('\0') && (s.len() > 0 ==> s[0] != '"' && s[0] != '`' && s[0] != '\''
        && s[0] != '[')
    ||| n == seq!['"'] + doubled(s, '"') + seq!['"']
    ||| n == seq!['`'] + doubled(s, '`') + seq!['`']
    ||| n == seq!['\''] + doubled(s, '\'') + seq!['\'']
    ||| n == seq!['['] + s + seq![']'] && !s.contains('\0')
}

proof fn lemma_doubled_nothing(s: Seq<char>, q: char)
    requires
        !s.contains(q),
    ensures
        doubled(s, q) == s,
    decreases s.len(),
{
    if s.len() > 0 {
        let rest = s.skip(1);
        assert(s.contains(s[0]));
        assert forall|i: int| 0 <= i < rest.len() implies rest[i] != q by {
            assert(rest[i] == s[i + 1]);
            assert(s.contains(s[i + 1]));
        }
        lemma_doubled_nothing(rest, q);
        assert(seq![s[0]] + rest =~= s);
    }
}

proof fn lemma_written(n: Seq<char>, s: Seq<char>)
    requires
        is_written(n, s),
    ensures
        is_closed(n),
        body(n) == doubled(s, paired_char(n)),
{
    if n == seq!['"'] + doubled(s, '"') + seq!['"'] {
        assert(body(n) =~= doubled(s, '"'));
    } else if n == seq!['`'] + doubled(s, '`') + seq!['`'] {
        assert(body(n) =~= doubled(s, '`'));
    } else if n == seq!['\''] + doubled(s, '\'') + seq!['\''] {
        assert(body(n) =~= doubled(s, '\''));
    } else {
        lemma_doubled_nothing(s, '\0');
        assert(body(n) =~= s);
    }
}

proof fn lemma_step(s: Seq<char>, q: char, more: Seq<char>)
    requires
        s.len() > 0,
    ensures
        ({
            let d = doubled(s, q) + more;
            &&& d.len() > 0
            &&& d[0] == s[0]
            &&& !is_stuck(d, q)
            &&& rest(d, q) == doubled(s.skip(1), q) + more
        }),
{
    let d = doubled(s, q) + more;
    assert(rest(d, q) =~= doubled(s.skip(1), q) + more);
}

proof fn lemma_case_by_case(a: Seq<char>, b: Seq<char>)
    requires
        a.len() > 0,
        b.len() > 0,
    ensures
        text::same_ignoring_case(a, b) <==> text::lower_char(a[0]) == text::lower_char(b[0])
            && text::same_ignoring_case(a.skip(1), b.skip(1)),
{
    let x = text::lower_ascii(a);
    let y = text::lower_ascii(b);
    assert(text::lower_ascii(a.skip(1)) =~= x.skip(1));
    assert(text::lower_ascii(b.skip(1)) =~= y.skip(1));
    if x[0] == y[0] && x.skip(1) == y.skip(1) {
        assert(x =~= seq![x[0]] + x.skip(1));
        assert(y =~= seq![y[0]] + y.skip(1));
    }
}

proof fn lemma_doubled_bodies(a: Seq<char>, p: char, b: Seq<char>, q: char)
    ensures
        compare_bodies(doubled(a, p), p, doubled(b, q), q) == Some(text::same_ignoring_case(a, b)),
    decreases a.len(),
{
    let none = Seq::<char>::empty();
    assert(doubled(a, p) + none =~= doubled(a, p));
    assert(doubled(b, q) + none =~= doubled(b, q));
    assert(text::lower_ascii(a).len() == a.len());
    assert(text::lower_ascii(b).len() == b.len());
    if a.len() > 0 {
        lemma_step(a, p, none);
    }
    if b.len() > 0 {
        lemma_step(b, q, none);
    }
    if a.len() > 0 && b.len() > 0 {
        assert(doubled(a.skip(1), p) + none =~= doubled(a.skip(1), p));
        assert(doubled(b.skip(1), q) + none =~= doubled(b.skip(1), q));
        lemma_case_by_case(a, b);
        lemma_doubled_bodies(a.skip(1), p, b.skip(1), q);
    } else {
        assert(a.len() == 0 && b.len() == 0 ==> text::lower_ascii(a) =~= text::lower_ascii(b));
    }
}

/// Two names, however each is written, compare as they would without quotes:
/// they are the same if they differ at most in the case of ASCII letters.
pub proof fn names_do_not_depend_on_how_they_are_written(
    m: Seq<char>,
    a: Seq<char>,
    n: Seq<char>,
    b: Seq<char>,
)
    requires
        is_written(m, a),
        is_written(n, b),
    ensures
        compare_names(m, n) == Some(text::same_ignoring_case(a, b)),
{
    lemma_written(m, a);
    lemma_written(n, b);
    lemma_doubled_bodies(a, paired_char(m), b, paired_char(n));
}

/// A name whose quotes are not closed cannot be compared.
pub proof fn open_quotes_cannot_be_compared(m: Seq<char>, n: Seq<char>)
    requires
        m.len() > 0,
        m[0] == '"' || m[0] == '`' || m[0] == '\'' || m[0] == '[',
        m.len() == 1 || m.last() != (if m[0] == '[' {
            ']'
        } else {
            m[0]
        }),
    ensures
        compare_names(m, n) is None,
        compare_names(n, m) is None,
{
}

/// A quotation mark inside quotes that is not doubled ends the comparison
/// without outcome where all before it is the same, and does not matter where
/// something before it differs.
pub proof fn stray_marks_count_where_they_are_reached(
    x: Seq<char>,
    q: char,
    stray: Seq<char>,
    n: Seq<char>,
    b: Seq<char>,
)
    requires
        q == '"' || q == '`' || q == '\'',
        stray.len() > 0,
        stray[0] == q,
        stray.len() == 1 || stray[1] != q,
        is_written(n, b),
    ensures
        compare_names(seq![q] + (doubled(x, q) + stray) + seq![q], n) == if x.len() <= b.len()
            && text::same_ignoring_case(x, b.take(x.len() as int)) {
            None
        } else {
            Some(false)
        },
{
    let m = seq![q] + (doubled(x, q) + stray) + seq![q];
    assert(body(m) =~= doubled(x, q) + stray);
    lemma_written(n, b);
    lemma_stray(x, q, stray, b, paired_char(n));
}

proof fn lemma_stray(x: Seq<char>, q: char, stray: Seq<char>, b: Seq<char>, p: char)
    requires
        is_stuck(stray, q),
    ensures
        compare_bodies(doubled(x, q) + stray, q, doubled(b, p), p) == if x.len() <= b.len()
            && text::same_ignoring_case(x, b.take(x.len() as int)) {
            None
        } else {
            Some(false)
        },
    decreases x.len(),
{
    let none = Seq::<char>::empty();
    assert(doubled(b, p) + none =~= doubled(b, p));
    if b.len() > 0 {
        lemma_step(b, p, none);
    }
    if x.len() == 0 {
        assert(doubled(x, q) + stray =~= stray);
        assert(text::lower_ascii(x) =~= text::lower_ascii(b.take(0)));
    } else {
        lemma_step(x, q, stray);
        if b.len() > 0 {
            assert(doubled(b.skip(1), p) + none =~= doubled(b.skip(1), p));
            lemma_stray(x.skip(1), q, stray, b.skip(1), p);
            if x.len() <= b.len() {
                let t = b.take(x.len() as int);
                lemma_case_by_case(x, t);
                assert(t.skip(1) =~= b.skip(1).take(x.len() - 1));
            }
        }
    }
}

} // verus!
