//! The URL a peer on the LAN opens to reach the endpoint.
//!
//! The URL is `https://HOST:PORT`. `HOST` is the machine's primary IPv4
//! address in dotted decimal when one is found, and `localhost` otherwise;
//! `PORT` is the port the endpoint binds.

use vstd::prelude::*;
use vstd::string::*;
use vstd::utf8::*;
use crate::config::STREAM_PORT;
use crate::text::{ascii_char_at, ascii_len, decimal, decimal_string};

verus! {

/// Whether `c` is one of `0` to `9`.
pub open spec fn is_digit(c: char) -> bool {
    '0' <= c && c <= '9'
}

/// The number a digit stands for.
pub open spec fn digit_value(c: char) -> int
    recommends
        is_digit(c),
{
    c as int - '0' as int
}

/// The number a run of digits stands for, read in decimal.
pub open spec fn decimal_value(digits: Seq<char>) -> int
    decreases digits.len(),
{
    if digits.len() == 0 {
        0
    } else {
        10 * decimal_value(digits.drop_last()) + digit_value(digits.last())
    }
}

/// One field of a dotted-decimal address: one to three digits, without a
/// leading zero unless the field is `0`, with a value of at most 255.
pub open spec fn is_octet_text(field: Seq<char>) -> bool {
    &&& 1 <= field.len() <= 3
    &&& forall|i: int| 0 <= i < field.len() ==> is_digit(#[trigger] field[i])
    &&& (field.len() > 1 ==> field[0] != '0')
    &&& decimal_value(field) <= 255
}

/// Four fields joined by dots.
pub open spec fn dotted_quad(a: Seq<char>, b: Seq<char>, c: Seq<char>, d: Seq<char>) -> Seq<char> {
    a + seq!['.'] + b + seq!['.'] + c + seq!['.'] + d
}

/// Whether `text` is a well-formed IPv4 literal: four octet fields joined
/// by dots, and nothing else.
pub open spec fn ipv4_literal(text: Seq<char>) -> bool {
    exists|a: Seq<char>, b: Seq<char>, c: Seq<char>, d: Seq<char>|
        is_octet_text(a) && is_octet_text(b) && is_octet_text(c) && is_octet_text(d) && text
            == #[trigger] dotted_quad(a, b, c, d)
}

/// Position of the first dot at or after `from`, or the length of the text
/// if there is none.
spec fn first_dot(text: Seq<char>, from: int) -> int
    decreases text.len() - from,
{
    if from < 0 || from >= text.len() {
        text.len() as int
    } else if text[from] == '.' {
        from
    } else {
        first_dot(text, from + 1)
    }
}

/// `text` read field by field: three dots, no fourth, and an octet field
/// before, between and after them.
spec fn splits_into_octets(text: Seq<char>) -> bool {
    let end_a = first_dot(text, 0);
    let end_b = first_dot(text, end_a + 1);
    let end_c = first_dot(text, end_b + 1);
    &&& end_c < text.len()
    &&& first_dot(text, end_c + 1) == text.len()
    &&& is_octet_text(text.subrange(0, end_a))
    &&& is_octet_text(text.subrange(end_a + 1, end_b))
    &&& is_octet_text(text.subrange(end_b + 1, end_c))
    &&& is_octet_text(text.subrange(end_c + 1, text.len() as int))
}

proof fn lemma_first_dot_bounds(text: Seq<char>, from: int)
    requires
        0 <= from <= text.len(),
    ensures
        from <= first_dot(text, from) <= text.len(),
        first_dot(text, from) < text.len() ==> text[first_dot(text, from)] == '.',
        forall|i: int| from <= i < first_dot(text, from) ==> text[i] != '.',
    decreases text.len() - from,
{
    if from < text.len() && text[from] != '.' {
        lemma_first_dot_bounds(text, from + 1);
    }
}

proof fn lemma_first_dot_is(text: Seq<char>, from: int, at: int)
    requires
        0 <= from <= at <= text.len(),
        forall|i: int| from <= i < at ==> text[i] != '.',
        at < text.len() ==> text[at] == '.',
    ensures
        first_dot(text, from) == at,
    decreases at - from,
{
    if from < at {
        lemma_first_dot_is(text, from + 1, at);
    }
}

/// Reading field by field finds exactly the well-formed literals.
proof fn lemma_split_decides(text: Seq<char>)
    ensures
        splits_into_octets(text) <==> ipv4_literal(text),
{
    if splits_into_octets(text) {
        let n = text.len() as int;
        let end_a = first_dot(text, 0);
        lemma_first_dot_bounds(text, 0);
        let end_b = first_dot(text, end_a + 1);
        lemma_first_dot_bounds(text, end_a + 1);
        let end_c = first_dot(text, end_b + 1);
        lemma_first_dot_bounds(text, end_b + 1);
        let a = text.subrange(0, end_a);
        let b = text.subrange(end_a + 1, end_b);
        let c = text.subrange(end_b + 1, end_c);
        let d = text.subrange(end_c + 1, n);
        assert(text =~= dotted_quad(a, b, c, d));
    }
    if ipv4_literal(text) {
        let (a, b, c, d) = choose|a: Seq<char>, b: Seq<char>, c: Seq<char>, d: Seq<char>|
            is_octet_text(a) && is_octet_text(b) && is_octet_text(c) && is_octet_text(d) && text
                == #[trigger] dotted_quad(a, b, c, d);
        let n = text.len() as int;
        let end_a = a.len() as int;
        let end_b = end_a + 1 + b.len();
        let end_c = end_b + 1 + c.len();
        assert(n == end_c + 1 + d.len());
        assert forall|i: int| 0 <= i < end_a implies text[i] != '.' by {
            assert(text[i] == a[i]);
        }
        assert forall|i: int| end_a + 1 <= i < end_b implies text[i] != '.' by {
            assert(text[i] == b[i - end_a - 1]);
        }
        assert forall|i: int| end_b + 1 <= i < end_c implies text[i] != '.' by {
            assert(text[i] == c[i - end_b - 1]);
        }
        assert forall|i: int| end_c + 1 <= i < n implies text[i] != '.' by {
            assert(text[i] == d[i - end_c - 1]);
        }
        lemma_first_dot_is(text, 0, end_a);
        lemma_first_dot_is(text, end_a + 1, end_b);
        lemma_first_dot_is(text, end_b + 1, end_c);
        lemma_first_dot_is(text, end_c + 1, n);
        assert(text.subrange(0, end_a) =~= a);
        assert(text.subrange(end_a + 1, end_b) =~= b);
        assert(text.subrange(end_b + 1, end_c) =~= c);
        assert(text.subrange(end_c + 1, n) =~= d);
    }
}

/// Finds the first dot at or after `from`.
fn find_dot(text: &str, from: usize) -> (at: usize)
    requires
        is_ascii_chars(text@),
        from <= text@.len(),
    ensures
        at == first_dot(text@, from as int),
        from <= at <= text@.len(),
{
    let n: usize = ascii_len(text);
    let mut i: usize = from;
    while i < n && ascii_char_at(text, i) != '.'
        invariant
            from <= i <= n,
            n == text@.len(),
            is_ascii_chars(text@),
            first_dot(text@, from as int) == first_dot(text@, i as int),
        decreases n - i,
    {
        i += 1;
    }
    i
}

/// Decides [`is_octet_text`] for the characters from `from` up to `to`.
fn is_octet(text: &str, from: usize, to: usize) -> (ok: bool)
    requires
        is_ascii_chars(text@),
        from <= to <= text@.len(),
    ensures
        ok == is_octet_text(text@.subrange(from as int, to as int)),
{
    let len: usize = to - from;
    if len < 1 || len > 3 {
        return false;
    }
    let ghost field = text@.subrange(from as int, to as int);
    let mut value: u16 = 0;
    let mut i: usize = from;
    while i < to
        invariant
            from <= i <= to,
            to <= text@.len(),
            to - from <= 3,
            is_ascii_chars(text@),
            field == text@.subrange(from as int, to as int),
            forall|k: int| 0 <= k < i - from ==> is_digit(#[trigger] field[k]),
            value == decimal_value(field.take(i - from)),
            i - from == 0 ==> value == 0,
            i - from == 1 ==> value <= 9,
            i - from == 2 ==> value <= 99,
            i - from == 3 ==> value <= 999,
        decreases to - i,
    {
        let c = ascii_char_at(text, i);
        assert(c == field[i - from]);
        if c < '0' || c > '9' {
            return false;
        }
        assert(field.take(i - from + 1).drop_last() =~= field.take(i - from));
        value = value * 10 + (c as u8 - 48) as u16;
        i += 1;
    }
    assert(field.take(to - from) =~= field);
    if len > 1 && ascii_char_at(text, from) == '0' {
        return false;
    }
    value <= 255
}

/// Whether `text` is a well-formed IPv4 literal, such as `192.168.1.42`.
pub fn is_ipv4_literal(text: &str) -> (ok: bool)
    ensures
        ok == ipv4_literal(text@),
{
    if !text.is_ascii() {
        // Digits and dots are ASCII.
        return false;
    }
    proof {
        lemma_split_decides(text@);
    }
    let n: usize = ascii_len(text);
    let end_a: usize = find_dot(text, 0);
    if end_a >= n {
        return false;
    }
    let end_b: usize = find_dot(text, end_a + 1);
    if end_b >= n {
        return false;
    }
    let end_c: usize = find_dot(text, end_b + 1);
    if end_c >= n {
        return false;
    }
    if find_dot(text, end_c + 1) != n {
        return false;
    }
    is_octet(text, 0, end_a) && is_octet(text, end_a + 1, end_b) && is_octet(
        text,
        end_b + 1,
        end_c,
    ) && is_octet(text, end_c + 1, n)
}


/// The host named when no address is found.
pub open spec fn localhost() -> Seq<char> {
    "localhost"@
}

/// `https://HOST:PORT`, the port in decimal.
pub open spec fn url_of(host: Seq<char>, port: nat) -> Seq<char> {
    "https://"@ + host + ":"@ + decimal(port)
}

/// The host to advertise, given what the address lookup found: the text
/// found if it is a well-formed IPv4 literal, `localhost` in every other
/// case.
pub open spec fn advertised_host(found: Option<Seq<char>>) -> Seq<char> {
    match found {
        Some(text) => if ipv4_literal(text) {
            text
        } else {
            localhost()
        },
        None => localhost(),
    }
}

/// The URL to advertise, given what the address lookup found.
pub open spec fn stream_url_for(found: Option<Seq<char>>) -> Seq<char> {
    url_of(advertised_host(found), STREAM_PORT as nat)
}

/// Whether `url` has the form of an advertised URL: `https://`, then an
/// IPv4 literal or `localhost`, then `:` and the stream port.
pub open spec fn is_stream_url(url: Seq<char>) -> bool {
    exists|host: Seq<char>|
        (ipv4_literal(host) || host == localhost()) && url == #[trigger] url_of(
            host,
            STREAM_PORT as nat,
        )
}

/// The characters of an optional text.
pub open spec fn found_view(found: Option<&str>) -> Option<Seq<char>> {
    match found {
        Some(text) => Some(text@),
        None => None,
    }
}

/// The stream port in decimal is `4104`.
pub proof fn law_port_text()
    ensures
        decimal(STREAM_PORT as nat) == "4104"@,
        forall|host: Seq<char>| #[trigger]
            url_of(host, STREAM_PORT as nat) == "https://"@ + host + ":4104"@,
{
    reveal_strlit("0123456789");
    reveal_strlit("4104");
    reveal_strlit(":4104");
    reveal_strlit(":");
    reveal_with_fuel(decimal, 4);
}

/// Whatever the address lookup found, the advertised URL is `https://`, an
/// IPv4 literal or `localhost`, and the stream port.
pub proof fn law_url_form(found: Option<Seq<char>>)
    ensures
        is_stream_url(stream_url_for(found)),
{
}

/// The URL to advertise, given what the address lookup found: the address
/// if it is a well-formed IPv4 literal, `localhost` otherwise.
pub fn stream_url(found: Option<&str>) -> (url: String)
    ensures
        url@ == stream_url_for(found_view(found)),
        is_stream_url(url@),
{
    let host = match found {
        Some(text) => if is_ipv4_literal(text) {
            text
        } else {
            "localhost"
        },
        None => "localhost",
    };
    let port = decimal_string(STREAM_PORT);
    let url = String::from_str("https://").concat(host).concat(":").concat(port.as_str());
    proof {
        law_url_form(found_view(found));
    }
    url
}

/// Asks the operating system for the machine's primary local IPv4 address
/// and renders it as text.
///
/// Calls `local_ip_address::local_ip` and `to_string` on the address it
/// returns. What comes back depends on the machine's network interfaces at
/// the time of the call, so nothing is claimed of it.
#[verifier::external_body]
fn local_ip_text() -> (found: Option<String>)
{
    match local_ip_address::local_ip() {
        Ok(ip) => Some(ip.to_string()),
        Err(_) => None,
    }
}

/// The URL a peer on the LAN should open: `https://{ip}:4104` with the
/// machine's primary IPv4 address, or `https://localhost:4104` when none is
/// found.
pub fn get_stream_url() -> (url: String)
    ensures
        is_stream_url(url@),
{
    match local_ip_text() {
        Some(text) => stream_url(Some(text.as_str())),
        None => stream_url(None),
    }
}

} // verus!
