//! Text helpers that the rest of the library shares: building strings,
//! decimal numbers, and UTF-8.

use vstd::prelude::*;
use vstd::string::*;
use vstd::utf8::{decode_utf8, is_ascii_chars, valid_utf8};

verus! {

/// `String::push` of std: the character is appended and nothing else changes.
#[verifier::external_body]
pub(crate) fn push_char(s: &mut String, c: char)
    ensures
        final(s)@ == old(s)@.push(c),
{
    s.push(c)
}

/// `==` of std on two string slices: true exactly when they hold the same
/// characters.
#[verifier::external_body]
pub(crate) fn same_text(a: &str, b: &str) -> (res: bool)
    ensures
        res == (a@ == b@),
{
    a == b
}

/// `std::str::from_utf8`: the bytes read as text where they are well-formed
/// UTF-8, and nothing where they are not.
#[verifier::external_body]
pub(crate) fn utf8_text<'a>(bytes: &'a [u8]) -> (res: Option<&'a str>)
    ensures
        match res {
            Some(text) => part_text(bytes@) == Some(text@),
            None => part_text(bytes@) is None,
        },
{
    std::str::from_utf8(bytes).ok()
}

/// The text that a part's bytes spell, where they are well-formed UTF-8.
pub open spec fn part_text(bytes: Seq<u8>) -> Option<Seq<char>> {
    if valid_utf8(bytes) {
        Some(decode_utf8(bytes))
    } else {
        None
    }
}

/// The string whose characters are those of `chars`, in order.
pub fn string_of_chars(chars: &Vec<char>) -> (res: String)
    ensures
        res@ == chars@,
{
    let mut out = String::new();
    let mut i: usize = 0;
    while i < chars.len()
        invariant
            i <= chars.len(),
            out@ == chars@.subrange(0, i as int),
        decreases chars.len() - i,
    {
        push_char(&mut out, chars[i]);
        i += 1;
    }
    out
}

/// The character for the decimal digit `d`.
pub open spec fn digit_char(d: int) -> char
    recommends
        0 <= d <= 9,
{
    (48 + d) as u8 as char
}

/// `n` in decimal, without sign or leading zeros.
pub open spec fn decimal(n: nat) -> Seq<char>
    decreases n,
{
    if n < 10 {
        seq![digit_char(n as int)]
    } else {
        decimal(n / 10).push(digit_char((n % 10) as int))
    }
}

/// Renders `n` in decimal.
pub fn decimal_string(n: u64) -> (res: String)
    ensures
        res@ == decimal(n as nat),
{
    let mut digits: Vec<char> = Vec::new();
    let mut v: u64 = n;
    while v >= 10
        invariant
            decimal(n as nat) == decimal(v as nat) + digits@,
        decreases v,
    {
        let digit: char = (48u8 + (v % 10) as u8) as char;
        digits.insert(0, digit);
        v = v / 10;
    }
    let digit: char = (48u8 + v as u8) as char;
    digits.insert(0, digit);
    string_of_chars(&digits)
}

/// Whether `c` is one of `0` to `9`.
pub open spec fn is_digit(c: char) -> bool {
    '0' <= c && c <= '9'
}

/// Whether every character of `s` is a decimal digit.
pub open spec fn all_digits(s: Seq<char>) -> bool {
    forall|i: int| 0 <= i < s.len() ==> is_digit(#[trigger] s[i])
}

/// The number that the decimal digits `s` spell; leading zeros count for
/// nothing.
pub open spec fn digits_value(s: Seq<char>) -> nat
    decreases s.len(),
{
    if s.len() == 0 {
        0
    } else {
        digits_value(s.drop_last()) * 10 + (s.last() as u32 - 48) as nat
    }
}

/// `s` without the one `+` that may stand before a number.
pub open spec fn unsigned_part(s: Seq<char>) -> Seq<char> {
    if s.len() > 1 && s[0] == '+' {
        s.subrange(1, s.len() as int)
    } else {
        s
    }
}

/// The index that `s` spells: decimal digits, at least one, with at most
/// one `+` before them, and a value that a `usize` holds. Anything else
/// spells no index.
pub open spec fn index_of_text(s: Seq<char>) -> Option<usize> {
    let body = unsigned_part(s);
    if body.len() > 0 && all_digits(body) && digits_value(body) <= usize::MAX {
        Some(digits_value(body) as usize)
    } else {
        None
    }
}

/// The value of digits never shrinks as more digits follow.
proof fn lemma_digits_value_grows(s: Seq<char>, k: int)
    requires
        0 <= k <= s.len(),
    ensures
        digits_value(s.subrange(0, k)) <= digits_value(s),
    decreases s.len() - k,
{
    if k < s.len() {
        lemma_digits_value_grows(s, k + 1);
        assert(s.subrange(0, k + 1).drop_last() == s.subrange(0, k));
    } else {
        assert(s.subrange(0, k) == s);
    }
}

/// Reads an index as `str::parse::<usize>` does.
pub fn parse_index(s: &str) -> (res: Option<usize>)
    ensures
        res == index_of_text(s@),
{
    if !s.is_ascii() {
        proof {
            let body = unsigned_part(s@);
            if all_digits(body) {
                assert forall|i: int| 0 <= i < s@.len() implies '\0' <= #[trigger] s@[i]
                    <= '\u{7f}' by {
                    if body.len() < s@.len() && i > 0 {
                        assert(is_digit(body[i - 1]));
                    }
                }
            }
        }
        return None;
    }
    let bytes = s.as_bytes();
    proof {
        is_ascii_spec_bytes(s);
    }
    let n = bytes.len();
    let start: usize = if n > 1 && bytes[0] == 43u8 {
        1
    } else {
        0
    };
    let ghost body = unsigned_part(s@);
    if start == n {
        return None;
    }
    let mut value: usize = 0;
    let mut i: usize = start;
    while i < n
        invariant
            start <= i <= n,
            n == s@.len(),
            n == bytes@.len(),
            is_ascii_chars(s@),
            forall|j: int| 0 <= j < n ==> bytes@[j] == #[trigger] s@[j] as u8,
            body == unsigned_part(s@),
            body == s@.subrange(start as int, n as int),
            all_digits(body.subrange(0, i - start)),
            value == digits_value(body.subrange(0, i - start)),
        decreases n - i,
    {
        let b = bytes[i];
        let ghost prefix = body.subrange(0, i - start);
        let ghost next = body.subrange(0, i + 1 - start);
        proof {
            assert(next.drop_last() == prefix);
        }
        if b < 48u8 || b > 57u8 {
            proof {
                assert(!is_digit(body[i - start]));
            }
            return None;
        }
        let d: usize = (b - 48u8) as usize;
        proof {
            assert forall|j: int| 0 <= j < next.len() implies is_digit(#[trigger] next[j]) by {}
            lemma_digits_value_grows(body, i + 1 - start);
        }
        value = match value.checked_mul(10) {
            Some(tens) => match tens.checked_add(d) {
                Some(sum) => sum,
                None => {
                    return None;
                },
            },
            None => {
                return None;
            },
        };
        i += 1;
    }
    assert(body.subrange(0, n - start) == body);
    Some(value)
}

/// Whether the last character of `s` is `/`.
pub fn ends_with_slash(s: &str) -> (res: bool)
    ensures
        res == (s@.len() > 0 && s@.last() == '/'),
{
    let n = s.unicode_len();
    n > 0 && s.get_char(n - 1) == '/'
}

} // verus!
