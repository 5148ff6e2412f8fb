//! Textual forms on the wire: header values and names, request methods and
//! UUIDs.
use vstd::prelude::*;
use vstd::string::*;

verus! {

/// A character that `http::HeaderValue::from_str` accepts: tab, or anything
/// from space upwards except DEL (every byte of a non-ASCII character is
/// accepted).
pub open spec fn header_value_char(c: char) -> bool {
    c as u32 == 9 || (32 <= (c as u32) && (c as u32) != 127)
}

/// Whether `http::HeaderValue::from_str` accepts the text.
pub open spec fn is_header_value(s: Seq<char>) -> bool {
    forall|i: int| 0 <= i < s.len() ==> header_value_char(#[trigger] s[i])
}

/// `http::HeaderValue::from_str`: claimed to succeed exactly when every
/// byte is a tab or at least 32 and not 127, which for the bytes of a `str`
/// is the condition `is_header_value` on its characters.
#[verifier::external_body]
pub(crate) fn header_value_ok(s: &str) -> (r: bool)
    ensures
        r == is_header_value(s@),
{
    axum::http::HeaderValue::from_str(s).is_ok()
}

/// A token character of the HTTP grammar (RFC 9110 `tchar`): an ASCII
/// letter or digit, or one of ``!#$%&'*+-.^_`|~``.
pub open spec fn is_tchar(c: char) -> bool {
    let u = c as u32;
    ||| 48 <= u <= 57
    ||| 65 <= u <= 90
    ||| 97 <= u <= 122
    ||| u == 33
    ||| 35 <= u <= 39
    ||| u == 42
    ||| u == 43
    ||| u == 45
    ||| u == 46
    ||| 94 <= u <= 96
    ||| u == 124
    ||| u == 126
}

/// A token of the HTTP grammar: one or more token characters.
pub open spec fn is_token(s: Seq<char>) -> bool {
    s.len() > 0 && forall|i: int| 0 <= i < s.len() ==> is_tchar(#[trigger] s[i])
}

/// The longest header name `http` accepts, in bytes.
pub const MAX_HEADER_NAME_LEN: usize = 65535;

/// Whether `http::HeaderName::from_bytes` accepts the bytes of the text: a
/// token (upper case letters allowed) of at most `MAX_HEADER_NAME_LEN`
/// characters. Token characters are ASCII, so characters and bytes agree.
pub open spec fn header_name_parses(s: Seq<char>) -> bool {
    is_token(s) && s.len() <= MAX_HEADER_NAME_LEN
}

/// `http::HeaderName::from_bytes` on the bytes of `s`. Claimed, as its
/// source shows: it succeeds exactly when the bytes are a token of at most
/// 65535 bytes (`HEADER_CHARS` maps every other byte to 0, which is
/// refused).
#[verifier::external_body]
pub(crate) fn header_name_ok(s: &str) -> (r: bool)
    ensures
        r == header_name_parses(s@),
{
    axum::http::HeaderName::from_bytes(s.as_bytes()).is_ok()
}

/// Whether `http::Method::from_bytes` accepts the bytes of the text: a
/// token of any length. The standard methods are tokens too.
pub open spec fn method_parses(s: Seq<char>) -> bool {
    is_token(s)
}

/// `http::Method::from_bytes` on the bytes of `s`. Claimed, as its source
/// shows: it succeeds exactly when the bytes are a token (`METHOD_CHARS`
/// maps every other byte to 0, which is refused; longer methods are kept
/// in an allocated extension).
#[verifier::external_body]
pub(crate) fn method_ok(s: &str) -> (r: bool)
    ensures
        r == method_parses(s@),
{
    axum::http::Method::from_bytes(s.as_bytes()).is_ok()
}

/// The UUID that `uuid::Uuid::parse_str` reads from the text, as its 128-bit
/// big-endian value.
pub uninterp spec fn uuid_parse(s: Seq<char>) -> Option<u128>;

/// `uuid::Uuid::parse_str`, with the result taken as its 128-bit value
/// (`Uuid::as_u128`). Claimed: the result is `uuid_parse` of the text.
#[verifier::external_body]
pub(crate) fn parse_uuid(s: &str) -> (r: Option<u128>)
    ensures
        r == uuid_parse(s@),
{
    match uuid::Uuid::parse_str(s) {
        Ok(u) => Some(u.as_u128()),
        Err(_) => None,
    }
}

/// Whether the text is a UUID that `uuid::Uuid::parse_str` accepts.
pub fn is_uuid(s: &str) -> (r: bool)
    ensures
        r == uuid_parse(s@) is Some,
{
    parse_uuid(s).is_some()
}

/// A lower-case hexadecimal digit.
pub open spec fn hex_char(d: nat) -> char {
    if d < 10 {
        ((d + 48) as u32) as char
    } else {
        ((d + 87) as u32) as char
    }
}

/// The `i`-th hexadecimal digit of `v`, most significant first.
pub open spec fn nibble(v: u128, i: nat) -> nat {
    ((v >> ((31 - i) * 4) as u128) & 15) as nat
}

/// The first `n` hexadecimal digits of `v`, most significant first.
pub open spec fn hex_digits(v: u128, n: nat) -> Seq<char>
    decreases n,
{
    if n == 0 {
        Seq::empty()
    } else {
        hex_digits(v, (n - 1) as nat).push(hex_char(nibble(v, (n - 1) as nat)))
    }
}

/// How `uuid::Uuid` displays a value: 32 lower-case hexadecimal digits in
/// groups of 8, 4, 4, 4 and 12, joined by hyphens.
pub open spec fn uuid_text(v: u128) -> Seq<char> {
    let d = hex_digits(v, 32);
    d.subrange(0, 8) + "-"@ + d.subrange(8, 12) + "-"@ + d.subrange(12, 16) + "-"@ + d.subrange(
        16,
        20,
    ) + "-"@ + d.subrange(20, 32)
}

fn hex_str(d: u128) -> (r: &'static str)
    requires
        d < 16,
    ensures
        r@ == seq![hex_char(d as nat)],
{
    let s = if d == 0 {
        "0"
    } else if d == 1 {
        "1"
    } else if d == 2 {
        "2"
    } else if d == 3 {
        "3"
    } else if d == 4 {
        "4"
    } else if d == 5 {
        "5"
    } else if d == 6 {
        "6"
    } else if d == 7 {
        "7"
    } else if d == 8 {
        "8"
    } else if d == 9 {
        "9"
    } else if d == 10 {
        "a"
    } else if d == 11 {
        "b"
    } else if d == 12 {
        "c"
    } else if d == 13 {
        "d"
    } else if d == 14 {
        "e"
    } else {
        "f"
    };
    proof {
        reveal_strlit("0");
        reveal_strlit("1");
        reveal_strlit("2");
        reveal_strlit("3");
        reveal_strlit("4");
        reveal_strlit("5");
        reveal_strlit("6");
        reveal_strlit("7");
        reveal_strlit("8");
        reveal_strlit("9");
        reveal_strlit("a");
        reveal_strlit("b");
        reveal_strlit("c");
        reveal_strlit("d");
        reveal_strlit("e");
        reveal_strlit("f");
    }
    s
}

/// The text of a UUID as `uuid::Uuid` displays it (lower-case, hyphenated).
pub fn uuid_string(v: u128) -> (r: String)
    ensures
        r@ == uuid_text(v),
{
    let mut digits = String::new();
    let mut i: u32 = 0;
    while i < 32
        invariant
            i <= 32,
            digits@ == hex_digits(v, i as nat),
        decreases 32 - i,
    {
        let shift: u32 = (31 - i) * 4;
        let d: u128 = (v >> shift) & 15;
        assert(((v >> shift) & 15) < 16) by (bit_vector);
        digits.append(hex_str(d));
        i = i + 1;
    }
    let d = digits.as_str();
    proof {
        reveal_strlit("-");
        lemma_hex_digits_visible(v, 32);
    }
    let mut out = String::from_str(d.substring_char(0, 8));
    out.append("-");
    out.append(d.substring_char(8, 12));
    out.append("-");
    out.append(d.substring_char(12, 16));
    out.append("-");
    out.append(d.substring_char(16, 20));
    out.append("-");
    out.append(d.substring_char(20, 32));
    assert(out@ =~= uuid_text(v));
    out
}

/// The characters of displayed UUIDs are all accepted in header values.
pub proof fn uuid_text_is_header_value(v: u128)
    ensures
        is_header_value(uuid_text(v)),
{
    let d = hex_digits(v, 32);
    lemma_hex_digits_visible(v, 32);
    reveal_strlit("-");
    let t = uuid_text(v);
    assert forall|i: int| 0 <= i < t.len() implies header_value_char(#[trigger] t[i]) by {
        if i < 8 {
            assert(t[i] == d[i]);
        } else if i == 8 || i == 13 || i == 18 || i == 23 {
        } else if i < 13 {
            assert(t[i] == d[i - 1]);
        } else if i < 18 {
            assert(t[i] == d[i - 2]);
        } else if i < 23 {
            assert(t[i] == d[i - 3]);
        } else {
            assert(t[i] == d[i - 4]);
        }
    }
}

proof fn lemma_hex_digits_visible(v: u128, n: nat)
    ensures
        hex_digits(v, n).len() == n,
        forall|i: int| 0 <= i < n ==> header_value_char(#[trigger] hex_digits(v, n)[i]),
    decreases n,
{
    if n > 0 {
        lemma_hex_digits_visible(v, (n - 1) as nat);
        let k = (n - 1) as nat;
        let x = v >> ((31 - k) * 4) as u128;
        assert((x & 15) < 16) by (bit_vector);
        assert forall|i: int| 0 <= i < n implies header_value_char(#[trigger] hex_digits(v, n)[i]) by {
            if i < n - 1 {
                assert(hex_digits(v, n)[i] == hex_digits(v, k)[i]);
            }
        }
    }
}

/// The value of a lower-case hexadecimal digit (`0`-`9`, `a`-`f`); `None`
/// for any other character.
pub open spec fn hex_value(c: char) -> Option<nat> {
    let u = c as u32;
    if 48 <= u <= 57 {
        Some((u - 48) as nat)
    } else if 97 <= u <= 102 {
        Some((u - 87) as nat)
    } else {
        None
    }
}

/// Each value below 16 is written as the lower-case hexadecimal digit that
/// reads back as it.
pub proof fn hex_char_reads_back(d: nat)
    requires
        d < 16,
    ensures
        hex_value(hex_char(d)) == Some(d),
{
    let u: u32 = if d < 10 {
        (d + 48) as u32
    } else {
        (d + 87) as u32
    };
    assert((u as char) as u32 == u);
}

/// The position in a displayed UUID of its `k`-th hexadecimal digit: the
/// hyphens after the 8th, 12th, 16th and 20th digits shift it.
pub open spec fn uuid_digit_position(k: int) -> int {
    k + (if k >= 8 {
        1int
    } else {
        0
    }) + (if k >= 12 {
        1int
    } else {
        0
    }) + (if k >= 16 {
        1int
    } else {
        0
    }) + (if k >= 20 {
        1int
    } else {
        0
    })
}

proof fn lemma_hex_digits_are_nibbles(v: u128, n: nat)
    ensures
        hex_digits(v, n).len() == n,
        forall|i: int| 0 <= i < n ==> #[trigger] hex_digits(v, n)[i] == hex_char(nibble(v, i as nat)),
    decreases n,
{
    if n > 0 {
        lemma_hex_digits_are_nibbles(v, (n - 1) as nat);
    }
}

/// A displayed UUID is 36 characters: hyphens at positions 8, 13, 18 and 23,
/// and elsewhere its 32 hexadecimal digits, most significant first, each of
/// which reads back as the corresponding four bits of the value.
pub proof fn uuid_text_reads_back(v: u128)
    ensures
        uuid_text(v).len() == 36,
        uuid_text(v)[8] == '-' && uuid_text(v)[13] == '-' && uuid_text(v)[18] == '-'
            && uuid_text(v)[23] == '-',
        forall|k: int|
            0 <= k < 32 ==> hex_value(#[trigger] uuid_text(v)[uuid_digit_position(k)]) == Some(
                ((v >> ((31 - k) * 4) as u128) & 15) as nat,
            ),
{
    reveal_strlit("-");
    lemma_hex_digits_are_nibbles(v, 32);
    let d = hex_digits(v, 32);
    let t = uuid_text(v);
    assert forall|k: int|
        0 <= k < 32 implies hex_value(#[trigger] t[uuid_digit_position(k)]) == Some(
            ((v >> ((31 - k) * 4) as u128) & 15) as nat,
        ) by {
        let x = v >> ((31 - k) * 4) as u128;
        assert((x & 15) < 16) by (bit_vector);
        hex_char_reads_back(nibble(v, k as nat));
        assert(t[uuid_digit_position(k)] == d[k]);
    }
}

} // verus!
