//! Hex text to bytes.

use vstd::prelude::*;

verus! {

broadcast use vstd::string::group_string_axioms;

/// Unicode White_Space, the set that `char::is_whitespace` tests.
pub open spec fn is_white_space(c: char) -> bool {
    ('\u{9}' <= c && c <= '\u{d}') || c == ' ' || c == '\u{85}' || c == '\u{a0}'
        || c == '\u{1680}' || ('\u{2000}' <= c && c <= '\u{200a}') || c == '\u{2028}'
        || c == '\u{2029}' || c == '\u{202f}' || c == '\u{205f}' || c == '\u{3000}'
}

/// `s` with white space removed at both ends.
pub open spec fn trim_spec(s: Seq<char>) -> Seq<char>
    decreases s.len(),
{
    if s.len() > 0 && is_white_space(s[0]) {
        trim_spec(s.drop_first())
    } else if s.len() > 0 && is_white_space(s.last()) {
        trim_spec(s.drop_last())
    } else {
        s
    }
}

/// The digits of a hex text: trimmed, without a leading `0x`.
pub open spec fn hex_body(s: Seq<char>) -> Seq<char> {
    let t = trim_spec(s);
    if t.len() >= 2 && t[0] == '0' && t[1] == 'x' {
        t.subrange(2, t.len() as int)
    } else {
        t
    }
}

pub open spec fn is_hex_digit(c: char) -> bool {
    ('0' <= c && c <= '9') || ('a' <= c && c <= 'f') || ('A' <= c && c <= 'F')
}

pub open spec fn hex_digit_value(c: char) -> nat {
    if '0' <= c && c <= '9' {
        (c as nat - '0' as nat) as nat
    } else if 'a' <= c && c <= 'f' {
        (c as nat - 'a' as nat + 10) as nat
    } else {
        (c as nat - 'A' as nat + 10) as nat
    }
}

/// An even number of hex digits.
pub open spec fn is_hex_text(t: Seq<char>) -> bool {
    &&& t.len() % 2 == 0
    &&& forall|i: int| 0 <= i < t.len() ==> is_hex_digit(#[trigger] t[i])
}

/// The bytes that a text of hex digits spells, two digits per byte, high digit first.
pub open spec fn hex_decode(t: Seq<char>) -> Seq<u8> {
    Seq::new(
        t.len() / 2,
        |i: int| (hex_digit_value(t[2 * i]) * 16 + hex_digit_value(t[2 * i + 1])) as u8,
    )
}

/// The lower-case hex digit for a value under sixteen.
pub open spec fn digit_char(v: u8) -> char {
    if v < 10 {
        (48 + v) as u8 as char
    } else {
        (87 + v) as u8 as char
    }
}

/// A hex digit in lower case; every other character as it is.
pub open spec fn lower_digit(c: char) -> char {
    if 'A' <= c && c <= 'F' {
        (c as u8 + 32) as u8 as char
    } else {
        c
    }
}

/// Lower-case hex text of bytes, two digits per byte, high digit first.
pub open spec fn hex_text(b: Seq<u8>) -> Seq<char> {
    Seq::new(
        2 * b.len(),
        |i: int|
            if i % 2 == 0 {
                digit_char(b[i / 2] / 16)
            } else {
                digit_char(b[i / 2] % 16)
            },
    )
}

proof fn lemma_digit_round_trip(c: char)
    requires
        is_hex_digit(c),
    ensures
        hex_digit_value(c) < 16,
        digit_char(hex_digit_value(c) as u8) == lower_digit(c),
{
}

proof fn lemma_byte_split(h: nat, l: nat)
    requires
        h < 16,
        l < 16,
    ensures
        ((h * 16 + l) as u8) / 16 == h,
        ((h * 16 + l) as u8) % 16 == l,
{
    assert(h * 16 + l < 256) by (nonlinear_arith)
        requires
            h < 16,
            l < 16,
    ;
    assert((h * 16 + l) / 16 == h && (h * 16 + l) % 16 == l) by (nonlinear_arith)
        requires
            l < 16,
    ;
}

/// Reading hex text and writing the bytes back as hex gives the digits that
/// were read, in lower case.
pub proof fn lemma_hex_round_trip(s: Seq<char>)
    requires
        is_hex_text(hex_body(s)),
    ensures
        hex_text(hex_decode(hex_body(s))) =~= hex_body(s).map_values(|c: char| lower_digit(c)),
{
    let t = hex_body(s);
    let d = hex_decode(t);
    assert forall|i: int| 0 <= i < t.len() implies #[trigger] hex_text(d)[i] == lower_digit(
        t[i],
    ) by {
        let j = i / 2;
        lemma_digit_round_trip(t[2 * j]);
        lemma_digit_round_trip(t[2 * j + 1]);
        lemma_byte_split(hex_digit_value(t[2 * j]), hex_digit_value(t[2 * j + 1]));
    }
}

/// Relies on str::trim: white space removed at both ends, nothing else changed.
#[verifier::external_body]
fn trim(s: &str) -> (r: &str)
    ensures
        r@ == trim_spec(s@),
{
    s.trim()
}

fn hex_digit(b: u8) -> (r: Option<u8>)
    ensures
        match r {
            Some(v) => is_hex_digit(b as char) && v as nat == hex_digit_value(b as char) && v < 16,
            None => !is_hex_digit(b as char),
        },
{
    if 48 <= b && b <= 57 {
        Some(b - 48)
    } else if 97 <= b && b <= 102 {
        Some(b - 87)
    } else if 65 <= b && b <= 70 {
        Some(b - 55)
    } else {
        None
    }
}

/// Reads hex text into bytes. White space at both ends is ignored, and so is
/// one leading `0x`. What remains must be an even number of hex digits, of
/// either case; otherwise the result is `None`.
pub fn hex_to_bytes(s: &str) -> (r: Option<Vec<u8>>)
    ensures
        match r {
            Some(v) => is_hex_text(hex_body(s@)) && v@ == hex_decode(hex_body(s@)),
            None => !is_hex_text(hex_body(s@)),
        },
{
    let t = trim(s);
    let ghost body = hex_body(s@);
    if !t.is_ascii() {
        proof {
            let k = choose|k: int| 0 <= k < t@.len() && !('\0' <= #[trigger] t@[k] <= '\u{7f}');
            if t@.len() >= 2 && t@[0] == '0' && t@[1] == 'x' {
                assert(body[k - 2] == t@[k]);
            } else {
                assert(body[k] == t@[k]);
            }
        }
        return None;
    }
    let b = t.as_bytes();
    let n = b.len();
    proof {
        assert(b@.len() == t@.len());
        assert(forall|j: int| 0 <= j < n ==> (#[trigger] b@[j]) as char == t@[j]);
    }
    let start: usize = if n >= 2 && b[0] == 48 && b[1] == 120 {
        2
    } else {
        0
    };
    assert(body =~= t@.subrange(start as int, n as int));
    if (n - start) % 2 != 0 {
        return None;
    }
    let mut out: Vec<u8> = Vec::new();
    let mut i: usize = start;
    while i < n
        invariant
            start <= i <= n,
            n == b@.len(),
            n == t@.len(),
            (i - start) % 2 == 0,
            (n - start) % 2 == 0,
            body == t@.subrange(start as int, n as int),
            body == hex_body(s@),
            forall|j: int| 0 <= j < n ==> (#[trigger] b@[j]) as char == t@[j],
            forall|j: int| 0 <= j < i - start ==> is_hex_digit(#[trigger] body[j]),
            out@ =~= hex_decode(body).subrange(0, (i - start) / 2),
        decreases n - i,
    {
        let hi = hex_digit(b[i]);
        let lo = hex_digit(b[i + 1]);
        match (hi, lo) {
            (Some(h), Some(l)) => {
                out.push(h * 16 + l);
                proof {
                    let k = (i - start) / 2;
                    assert(2 * k == i - start);
                    assert(body[2 * k] == t@[i as int]);
                    assert(body[2 * k + 1] == t@[i + 1]);
                    assert(out@ =~= hex_decode(body).subrange(0, k + 1));
                }
                i = i + 2;
            },
            _ => {
                proof {
                    if hi.is_none() {
                        assert(b@[i as int] as char == t@[i as int]);
                        assert(body[i - start] == t@[i as int]);
                        assert(!is_hex_digit(body[i - start]));
                    } else {
                        assert(b@[i + 1] as char == t@[i + 1]);
                        assert(body[i - start + 1] == t@[i + 1]);
                        assert(!is_hex_digit(body[i - start + 1]));
                    }
                }
                return None;
            },
        }
    }
    assert(hex_decode(body).len() == (n - start) / 2);
    assert(out@ =~= hex_decode(body));
    Some(out)
}

} // verus!
