//! Hexadecimal text, through the hex codec that alloy re-exports.

use vstd::prelude::*;
use vstd::string::*;
use vstd::utf8::*;

use crate::primitives::{Address, B256};

verus! {

/// The value of one ASCII hex digit (either case), if it is one.
pub open spec fn hex_digit_value(b: u8) -> Option<u8> {
    if 0x30 <= b <= 0x39 {
        Some((b - 0x30) as u8)
    } else if 0x61 <= b <= 0x66 {
        Some((b - 0x61 + 10) as u8)
    } else if 0x41 <= b <= 0x46 {
        Some((b - 0x41 + 10) as u8)
    } else {
        None
    }
}

/// Decodes pairs of hex digits, high digit first.
pub open spec fn decode_hex_pairs(s: Seq<u8>) -> Option<Seq<u8>>
    decreases s.len(),
{
    if s.len() == 0 {
        Some(Seq::empty())
    } else if s.len() == 1 {
        None
    } else {
        match (hex_digit_value(s[0]), hex_digit_value(s[1]), decode_hex_pairs(s.skip(2))) {
            (Some(hi), Some(lo), Some(rest)) => Some(seq![(hi * 16 + lo) as u8] + rest),
            _ => None,
        }
    }
}

/// `s` without one leading `0x` or `0X`.
pub open spec fn strip_one_hex_prefix(s: Seq<u8>) -> Seq<u8> {
    if s.len() >= 2 && s[0] == 0x30 && (s[1] == 0x78 || s[1] == 0x58) {
        s.skip(2)
    } else {
        s
    }
}

/// Hex decoding of text bytes: the text must have an even number of bytes,
/// may start with one `0x`/`0X`, and must otherwise be hex digits.
pub open spec fn hex_decode_spec(s: Seq<u8>) -> Option<Seq<u8>> {
    if s.len() % 2 != 0 {
        None
    } else {
        decode_hex_pairs(strip_one_hex_prefix(s))
    }
}

/// The lowercase hex digit for a value below 16.
pub open spec fn hex_digit_char(n: int) -> char {
    if n < 10 {
        (0x30 + n) as char
    } else {
        (0x61 + n - 10) as char
    }
}

/// Lowercase hex text of `s`, two digits per byte, high digit first.
pub open spec fn hex_encode_spec(s: Seq<u8>) -> Seq<char>
    decreases s.len(),
{
    if s.len() == 0 {
        Seq::empty()
    } else {
        seq![hex_digit_char(s[0] as int / 16), hex_digit_char(s[0] as int % 16)] + hex_encode_spec(s.skip(1))
    }
}

/// `alloy::hex::decode`: decodes the UTF-8 bytes of `s` as hex text,
/// exactly as `hex_decode_spec` describes (an odd byte count, or any byte
/// that is not a hex digit after an optional `0x`/`0X`, is refused).
#[verifier::external_body]
pub(crate) fn hex_decode(s: &str) -> (r: Option<Vec<u8>>)
    ensures
        match r {
            Some(v) => hex_decode_spec(s.spec_bytes()) == Some(v@),
            None => hex_decode_spec(s.spec_bytes()) is None,
        },
{
    alloy::hex::decode(s).ok()
}

/// `alloy::hex::encode`: lowercase hex text of the bytes, without prefix.
#[verifier::external_body]
pub(crate) fn hex_encode(bytes: &[u8]) -> (r: String)
    ensures
        r@ == hex_encode_spec(bytes@),
{
    alloy::hex::encode(bytes)
}

/// `0x` followed by the lowercase hex text of the bytes.
pub fn hex_encode_prefixed(bytes: &[u8]) -> (r: String)
    ensures
        r@ == seq!['0', 'x'] + hex_encode_spec(bytes@),
{
    let prefix = "0x";
    proof {
        reveal_strlit("0x");
    }
    let mut out = String::from_str(prefix);
    let digits = hex_encode(bytes);
    out.append(digits.as_str());
    out
}

/// Hex text of exactly `n` bytes, read as `hex_decode_spec` reads it.
pub open spec fn hex_decode_exact(s: Seq<u8>, n: nat) -> Option<Seq<u8>> {
    match hex_decode_spec(s) {
        Some(b) => if b.len() == n {
            Some(b)
        } else {
            None
        },
        None => None,
    }
}

/// `str::parse` into alloy's `Address`: the text must be hex (as
/// `hex_decode_spec` reads it) of exactly 20 bytes.
#[verifier::external_body]
pub(crate) fn parse_address(s: &str) -> (r: Option<Address>)
    ensures
        match hex_decode_exact(s.spec_bytes(), 20) {
            Some(b) => r matches Some(a) && a@ == b,
            None => r is None,
        },
{
    match s.parse::<alloy::primitives::Address>() {
        Ok(a) => Some(Address(a.0.0)),
        Err(_) => None,
    }
}

/// `str::parse` into alloy's `B256`: the text must be hex (as
/// `hex_decode_spec` reads it) of exactly 32 bytes.
#[verifier::external_body]
pub(crate) fn parse_b256(s: &str) -> (r: Option<B256>)
    ensures
        match hex_decode_exact(s.spec_bytes(), 32) {
            Some(b) => r matches Some(w) && w@ == b,
            None => r is None,
        },
{
    match s.parse::<alloy::primitives::B256>() {
        Ok(w) => Some(B256(w.0)),
        Err(_) => None,
    }
}

/// Whether `c` is a lowercase hex digit.
pub open spec fn is_lower_hex_char(c: char) -> bool {
    ('0' <= c <= '9') || ('a' <= c <= 'f')
}

/// The text bytes of ASCII characters.
pub open spec fn ascii_bytes(cs: Seq<char>) -> Seq<u8> {
    cs.map_values(|c: char| c as u8)
}

proof fn lemma_hex_digit_char(n: int)
    requires
        0 <= n < 16,
    ensures
        is_lower_hex_char(hex_digit_char(n)),
        hex_digit_value(hex_digit_char(n) as u8) == Some(n as u8),
{
}

/// Hex text has two lowercase hex digits per byte.
pub proof fn lemma_hex_encode_shape(b: Seq<u8>)
    ensures
        hex_encode_spec(b).len() == 2 * b.len(),
        forall|i: int| 0 <= i < hex_encode_spec(b).len() ==> is_lower_hex_char(#[trigger] hex_encode_spec(b)[i]),
    decreases b.len(),
{
    if b.len() > 0 {
        lemma_hex_encode_shape(b.skip(1));
        lemma_hex_digit_char(b[0] as int / 16);
        lemma_hex_digit_char(b[0] as int % 16);
        let h = hex_encode_spec(b);
        let t = hex_encode_spec(b.skip(1));
        assert forall|i: int| 0 <= i < h.len() implies is_lower_hex_char(#[trigger] h[i]) by {
            if i >= 2 {
                assert(h[i] == t[i - 2]);
            }
        }
    }
}

proof fn lemma_decode_hex_pairs_of_encoding(b: Seq<u8>)
    ensures
        decode_hex_pairs(ascii_bytes(hex_encode_spec(b))) == Some(b),
    decreases b.len(),
{
    let h = hex_encode_spec(b);
    if b.len() == 0 {
        assert(ascii_bytes(h) =~= Seq::<u8>::empty());
    } else {
        lemma_decode_hex_pairs_of_encoding(b.skip(1));
        let hi = b[0] as int / 16;
        let lo = b[0] as int % 16;
        lemma_hex_digit_char(hi);
        lemma_hex_digit_char(lo);
        let a = ascii_bytes(h);
        let t = hex_encode_spec(b.skip(1));
        assert(a.skip(2) =~= ascii_bytes(t));
        assert(a[0] == hex_digit_char(hi) as u8);
        assert(a[1] == hex_digit_char(lo) as u8);
        assert(seq![(hi * 16 + lo) as u8] + b.skip(1) =~= b);
    }
}

/// Hex decoding gives back the bytes whose hex text it reads.
pub proof fn lemma_hex_round_trip(b: Seq<u8>)
    ensures
        hex_decode_spec(encode_utf8(hex_encode_spec(b))) == Some(b),
{
    let h = hex_encode_spec(b);
    lemma_hex_encode_shape(b);
    assert(is_ascii_chars(h)) by {
        assert forall|i: int| 0 <= i < h.len() implies '\0' <= #[trigger] h[i] <= '\u{7f}' by {
            assert(is_lower_hex_char(h[i]));
        }
    }
    is_ascii_chars_encode_utf8(h);
    let e = encode_utf8(h);
    assert(e =~= ascii_bytes(h));
    lemma_decode_hex_pairs_of_encoding(b);
    if e.len() >= 2 {
        assert(is_lower_hex_char(h[1]));
        assert(e[1] == h[1] as u8);
    }
    assert(strip_one_hex_prefix(e) == e);
}

} // verus!
