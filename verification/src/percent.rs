//! Percent-encoding.

use vstd::prelude::*;

use crate::text;

verus! {

/// The value of a hexadecimal digit.
pub open spec fn hex_digit(c: char) -> Option<u8> {
    if '0' <= c <= '9' {
        Some((c as u32 - '0' as u32) as u8)
    } else if 'a' <= c <= 'f' {
        Some((c as u32 - 'a' as u32 + 10) as u8)
    } else if 'A' <= c <= 'F' {
        Some((c as u32 - 'A' as u32 + 10) as u8)
    } else {
        None
    }
}

/// The byte that two characters mean in base 16. A plus sign may stand before
/// the digits, and then one digit is left.
pub open spec fn hex_byte(c1: char, c2: char) -> Option<u8> {
    if c1 == '+' {
        hex_digit(c2)
    } else {
        match (hex_digit(c1), hex_digit(c2)) {
            (Some(high), Some(low)) => Some((16 * high + low) as u8),
            _ => None,
        }
    }
}

/// A text without its percent-encoding: `%` and two characters that mean a
/// byte stand for the character with that number. They stand for themselves
/// where they mean no byte, and of a `%` with fewer than two characters after
/// it, the `%` is left.
pub open spec fn decoded(s: Seq<char>) -> Seq<char>
    decreases s.len(),
{
    if s.len() == 0 {
        s
    } else if s[0] != '%' {
        seq![s[0]] + decoded(s.skip(1))
    } else if s.len() < 3 {
        seq!['%']
    } else {
        match hex_byte(s[1], s[2]) {
            Some(byte) => seq![byte as char] + decoded(s.skip(3)),
            None => s.take(3) + decoded(s.skip(3)),
        }
    }
}

fn hex_digit_value(c: char) -> (res: Option<u8>)
    ensures
        res == hex_digit(c),
{
    if '0' <= c && c <= '9' {
        Some(c as u8 - '0' as u8)
    } else if 'a' <= c && c <= 'f' {
        Some(c as u8 - 'a' as u8 + 10)
    } else if 'A' <= c && c <= 'F' {
        Some(c as u8 - 'A' as u8 + 10)
    } else {
        None
    }
}

/// The byte that two characters mean in base 16, if they mean one.
fn hex_byte_value(c1: char, c2: char) -> (res: Option<u8>)
    ensures
        res == hex_byte(c1, c2),
{
    let low = match hex_digit_value(c2) {
        Some(low) => low,
        None => {
            return None;
        },
    };
    if c1 == '+' {
        return Some(low);
    }
    match hex_digit_value(c1) {
        Some(high) => Some(16 * high + low),
        None => None,
    }
}

/// Decodes percent-encoded characters (e.g., `%20` to `' '`).
pub fn decode_percent(input: &str) -> (res: String)
    ensures
        res@ == decoded(input@),
{
    let chars = text::chars_of(input);
    let mut result = String::new();
    let mut i: usize = 0;
    proof {
        assert(chars@.skip(0) =~= chars@);
    }
    while i < chars.len()
        invariant
            chars@ == input@,
            i <= chars@.len(),
            decoded(input@) == result@ + decoded(chars@.skip(i as int)),
        decreases chars@.len() - i,
    {
        let ghost rest = chars@.skip(i as int);
        let ghost done = result@;
        if chars[i] != '%' {
            result.push(chars[i]);
            proof {
                assert(rest.skip(1) =~= chars@.skip(i + 1));
                assert(decoded(input@) =~= result@ + decoded(chars@.skip(i + 1)));
            }
            i = i + 1;
        } else if chars.len() - i < 3 {
            result.push('%');
            proof {
                assert(decoded(input@) =~= result@);
            }
            return result;
        } else {
            match hex_byte_value(chars[i + 1], chars[i + 2]) {
                Some(byte) => {
                    result.push(byte as char);
                },
                None => {
                    result.push('%');
                    result.push(chars[i + 1]);
                    result.push(chars[i + 2]);
                    proof {
                        assert(result@ =~= done + rest.take(3));
                    }
                },
            }
            proof {
                assert(rest.skip(3) =~= chars@.skip(i + 3));
                assert(decoded(input@) =~= result@ + decoded(chars@.skip(i + 3)));
            }
            i = i + 3;
        }
    }
    proof {
        assert(chars@.skip(i as int) =~= Seq::empty());
        assert(decoded(input@) =~= result@);
    }
    result
}

/// A text without a `%` stands for itself, whatever comes after it.
pub proof fn plain_text_is_left_alone(s: Seq<char>, t: Seq<char>)
    requires
        !s.contains('%'),
    ensures
        decoded(s + t) == s + decoded(t),
    decreases s.len(),
{
    if s.len() == 0 {
        assert(s + t =~= t);
        assert(s + decoded(t) =~= decoded(t));
    } else {
        assert(s[0] != '%');
        let rest = s.skip(1);
        assert forall|i: int| 0 <= i < rest.len() implies rest[i] != '%' by {
            assert(s[i + 1] != '%');
        }
        plain_text_is_left_alone(rest, t);
        assert((s + t).skip(1) =~= rest + t);
        assert(seq![s[0]] + (rest + decoded(t)) =~= s + decoded(t));
    }
}

/// `e` is a percent-encoding of `s`: each character of `s` stands in it as `%`
/// and two hexadecimal digits, of either case, or as itself if it is not `%`.
pub open spec fn is_encoding(e: Seq<char>, s: Seq<char>) -> bool
    decreases s.len(),
{
    if s.len() == 0 {
        e.len() == 0
    } else {
        ||| e.len() > 0 && e[0] == s[0] && s[0] != '%' && is_encoding(e.skip(1), s.skip(1))
        ||| {
            &&& e.len() >= 3
            &&& e[0] == '%'
            &&& hex_digit(e[1]) is Some
            &&& hex_digit(e[2]) is Some
            &&& 16 * hex_digit(e[1])->0 + hex_digit(e[2])->0 == s[0] as int
            &&& is_encoding(e.skip(3), s.skip(1))
        }
    }
}

/// Decoding gives back what was encoded, whatever comes after it.
pub proof fn decoding_undoes_encoding(e: Seq<char>, s: Seq<char>, t: Seq<char>)
    requires
        is_encoding(e, s),
    ensures
        decoded(e + t) == s + decoded(t),
    decreases s.len(),
{
    let whole = e + t;
    if s.len() == 0 {
        assert(whole =~= t);
        assert(s + decoded(t) =~= decoded(t));
    } else {
        let rest = s.skip(1);
        assert(whole[0] == e[0]);
        assert(seq![s[0]] + (rest + decoded(t)) =~= s + decoded(t));
        if e[0] == s[0] && s[0] != '%' {
            decoding_undoes_encoding(e.skip(1), rest, t);
            assert(whole.skip(1) =~= e.skip(1) + t);
        } else {
            decoding_undoes_encoding(e.skip(3), rest, t);
            assert(whole.skip(3) =~= e.skip(3) + t);
            assert(whole[1] == e[1] && whole[2] == e[2]);
            lemma_hex_pair(e[1], e[2], s[0]);
        }
    }
}

proof fn lemma_hex_pair(h: char, l: char, c: char)
    requires
        hex_digit(h) is Some,
        hex_digit(l) is Some,
        16 * hex_digit(h)->0 + hex_digit(l)->0 == c as int,
    ensures
        hex_byte(h, l) matches Some(byte) && byte as char == c,
{
}

/// The digit of a value below 16, in upper case.
pub open spec fn digit_of(n: int) -> char {
    if n < 10 {
        ('0' as int + n) as char
    } else {
        ('A' as int + n - 10) as char
    }
}

/// The percent-encoding of a character whose number is a byte.
pub open spec fn encoded_char(c: char) -> Seq<char> {
    seq!['%', digit_of(c as int / 16), digit_of(c as int % 16)]
}

/// A text with every character percent-encoded.
pub open spec fn encoded(s: Seq<char>) -> Seq<char>
    decreases s.len(),
{
    if s.len() == 0 {
        s
    } else {
        encoded_char(s[0]) + encoded(s.skip(1))
    }
}

proof fn lemma_encoded_char(c: char)
    requires
        c <= '\u{ff}',
    ensures
        ({
            let high = hex_digit(digit_of(c as int / 16));
            let low = hex_digit(digit_of(c as int % 16));
            &&& high is Some
            &&& low is Some
            &&& 16 * high->0 + low->0 == c as int
        }),
{
    let high = c as int / 16;
    let low = c as int % 16;
    assert(0 <= high < 16 && 0 <= low < 16);
    assert(hex_digit(digit_of(high)) == Some(high as u8));
    assert(hex_digit(digit_of(low)) == Some(low as u8));
    assert(16 * high + low == c as int);
}

/// Any text of characters whose numbers are bytes has a percent-encoding.
pub proof fn every_byte_can_be_encoded(s: Seq<char>)
    requires
        forall|i: int| 0 <= i < s.len() ==> #[trigger] s[i] <= '\u{ff}',
    ensures
        is_encoding(encoded(s), s),
    decreases s.len(),
{
    if s.len() > 0 {
        every_byte_can_be_encoded(s.skip(1));
        let c = s[0];
        assert(c <= '\u{ff}');
        lemma_encoded_char(c);
        assert(encoded(s).skip(3) =~= encoded(s.skip(1)));
    }
}

/// Decoding makes no text longer, and none of it empty that was not.
pub proof fn decoding_shortens(s: Seq<char>)
    ensures
        decoded(s).len() <= s.len(),
        s.len() > 0 ==> decoded(s).len() > 0,
    decreases s.len(),
{
    if s.len() > 0 {
        if s[0] != '%' {
            decoding_shortens(s.skip(1));
        } else if s.len() >= 3 {
            decoding_shortens(s.skip(3));
        }
    }
}

/// The hexadecimal digits are `0` to `9`, `a` to `f` and `A` to `F`, in the order
/// of their values.
pub proof fn hexadecimal_digits(c: char)
    ensures
        ({
            let n = c as int;
            match hex_digit(c) {
                Some(v) => {
                    ||| v <= 9 && n == 48 + v
                    ||| 10 <= v <= 15 && n == 97 + v - 10
                    ||| 10 <= v <= 15 && n == 65 + v - 10
                },
                None => n < 48 || 57 < n < 65 || 70 < n < 97 || 102 < n,
            }
        }),
{
}

/// `%` and two hexadecimal digits stand for the character of that number, and
/// what comes after them is decoded on its own.
pub proof fn two_digits_stand_for_a_character(h: char, l: char, c: char, t: Seq<char>)
    requires
        hex_digit(h) is Some,
        hex_digit(l) is Some,
        c as int == 16 * hex_digit(h)->0 + hex_digit(l)->0,
    ensures
        decoded(seq!['%', h, l] + t) == seq![c] + decoded(t),
{
    let s = seq!['%', h, l] + t;
    assert(s.skip(3) =~= t);
    lemma_hex_pair(h, l, c);
}

/// A plus sign may take the place of the first digit.
pub proof fn a_plus_sign_stands_for_zero(l: char, c: char, t: Seq<char>)
    requires
        hex_digit(l) is Some,
        c as int == hex_digit(l)->0,
    ensures
        decoded(seq!['%', '+', l] + t) == seq![c] + decoded(t),
{
    let s = seq!['%', '+', l] + t;
    assert(s.skip(3) =~= t);
}

/// `%` and two characters that mean no byte stand for themselves.
pub proof fn what_is_no_encoding_stays(a: char, b: char, t: Seq<char>)
    requires
        hex_digit(b) is None || (hex_digit(a) is None && a != '+'),
    ensures
        decoded(seq!['%', a, b] + t) == seq!['%', a, b] + decoded(t),
{
    let s = seq!['%', a, b] + t;
    assert(s.skip(3) =~= t);
    assert(s.take(3) =~= seq!['%', a, b]);
}

/// Of a `%` with fewer than two characters after it, the `%` is left; nothing
/// stands for nothing.
pub proof fn an_end_is_an_end(x: char)
    ensures
        decoded(seq!['%']) == seq!['%'],
        decoded(seq!['%', x]) == seq!['%'],
        decoded(Seq::empty()).len() == 0,
{
}

} // verus!
