//! Small verified helpers on text: equality of string slices and the decimal
//! rendering of numbers.

use vstd::prelude::*;
use vstd::string::*;
use vstd::utf8::*;

verus! {

/// Whether two string slices hold the same characters.
///
/// The comparison runs over the UTF-8 bytes; since encoding is injective,
/// equal bytes mean equal characters.
pub fn same_text(a: &str, b: &str) -> (same: bool)
    ensures
        same == (a@ == b@),
{
    let x = a.as_bytes();
    let y = b.as_bytes();
    proof {
        encode_utf8_decode_utf8(a@);
        encode_utf8_decode_utf8(b@);
    }
    if x.len() != y.len() {
        return false;
    }
    let mut i: usize = 0;
    while i < x.len()
        invariant
            i <= x.len(),
            x.len() == y.len(),
            x@ == encode_utf8(a@),
            y@ == encode_utf8(b@),
            forall|k: int| 0 <= k < i ==> x@[k] == y@[k],
        decreases x.len() - i,
    {
        if x[i] != y[i] {
            return false;
        }
        i += 1;
    }
    assert(x@ =~= y@);
    true
}

/// Number of characters of an ASCII text.
pub(crate) fn ascii_len(text: &str) -> (n: usize)
    requires
        is_ascii_chars(text@),
    ensures
        n == text@.len(),
{
    proof {
        is_ascii_chars_encode_utf8(text@);
    }
    text.as_bytes().len()
}

/// The character at position `i` of an ASCII text.
pub(crate) fn ascii_char_at(text: &str, i: usize) -> (c: char)
    requires
        is_ascii_chars(text@),
        i < text@.len(),
    ensures
        c == text@[i as int],
{
    proof {
        is_ascii_chars_encode_utf8(text@);
    }
    let b: u8 = text.as_bytes()[i];
    b as char
}

/// Whether `text` holds `pattern` at character offset `at`.
pub open spec fn holds_at(text: Seq<char>, at: int, pattern: Seq<char>) -> bool {
    &&& 0 <= at
    &&& at + pattern.len() <= text.len()
    &&& text.subrange(at, at + pattern.len()) == pattern
}

/// Decides [`holds_at`] for ASCII texts.
pub(crate) fn ascii_holds_at(text: &str, at: usize, pattern: &str) -> (found: bool)
    requires
        is_ascii_chars(text@),
        is_ascii_chars(pattern@),
    ensures
        found == holds_at(text@, at as int, pattern@),
{
    let n: usize = ascii_len(text);
    let m: usize = ascii_len(pattern);
    if at > n || m > n - at {
        return false;
    }
    let mut i: usize = 0;
    while i < m
        invariant
            i <= m,
            at + m <= n,
            n == text@.len(),
            m == pattern@.len(),
            is_ascii_chars(text@),
            is_ascii_chars(pattern@),
            forall|k: int| 0 <= k < i ==> text@[at + k] == pattern@[k],
        decreases m - i,
    {
        if ascii_char_at(text, at + i) != ascii_char_at(pattern, i) {
            return false;
        }
        i += 1;
    }
    assert(text@.subrange(at as int, at + m) =~= pattern@);
    true
}

/// The character for a decimal digit.
pub open spec fn digit_char(digit: nat) -> char
    recommends
        digit < 10,
{
    "0123456789"@[digit as int]
}

/// The decimal numeral of `n`: most significant digit first, no sign, no
/// leading zero but for zero itself.
pub open spec fn decimal(n: nat) -> Seq<char>
    decreases n,
{
    if n < 10 {
        seq![digit_char(n)]
    } else {
        decimal(n / 10).push(digit_char(n % 10))
    }
}

/// The one-character text of a decimal digit.
fn digit_text(digit: u16) -> (text: &'static str)
    requires
        digit < 10,
    ensures
        text@ == seq![digit_char(digit as nat)],
{
    proof {
        reveal_strlit("0123456789");
        reveal_strlit("0");
        reveal_strlit("1");
        reveal_strlit("2");
        reveal_strlit("3");
        reveal_strlit("4");
        reveal_strlit("5");
        reveal_strlit("6");
        reveal_strlit("7");
        reveal_strlit("8");
        reveal_strlit("9");
    }
    if digit == 0 {
        "0"
    } else if digit == 1 {
        "1"
    } else if digit == 2 {
        "2"
    } else if digit == 3 {
        "3"
    } else if digit == 4 {
        "4"
    } else if digit == 5 {
        "5"
    } else if digit == 6 {
        "6"
    } else if digit == 7 {
        "7"
    } else if digit == 8 {
        "8"
    } else {
        "9"
    }
}

/// Renders `n` in decimal.
pub fn decimal_string(n: u16) -> (text: String)
    ensures
        text@ == decimal(n as nat),
    decreases n,
{
    if n < 10 {
        String::from_str(digit_text(n))
    } else {
        decimal_string(n / 10).concat(digit_text(n % 10))
    }
}

} // verus!
