//! Standard base64 (RFC 4648 alphabet, padded), through the `base64` crate.
use base64::Engine;
use vstd::prelude::*;

verus! {

/// The character of a six-bit value in the standard alphabet:
/// `A`-`Z`, `a`-`z`, `0`-`9`, `+`, `/`.
pub open spec fn alphabet_char(v: int) -> char {
    if v < 26 {
        ('A' as int + v) as char
    } else if v < 52 {
        ('a' as int + (v - 26)) as char
    } else if v < 62 {
        ('0' as int + (v - 52)) as char
    } else if v == 62 {
        '+'
    } else {
        '/'
    }
}

/// Standard padded base64 (RFC 4648): each group of three bytes as four
/// characters of six bits each, a last group of one or two bytes padded
/// with `=` to four characters.
pub open spec fn standard_encoded(data: Seq<u8>) -> Seq<char>
    decreases data.len(),
{
    if data.len() == 0 {
        Seq::empty()
    } else if data.len() == 1 {
        seq![alphabet_char(data[0] as int / 4), alphabet_char((data[0] as int % 4) * 16), '=', '=']
    } else if data.len() == 2 {
        seq![
            alphabet_char(data[0] as int / 4),
            alphabet_char((data[0] as int % 4) * 16 + data[1] as int / 16),
            alphabet_char((data[1] as int % 16) * 4),
            '=',
        ]
    } else {
        seq![
            alphabet_char(data[0] as int / 4),
            alphabet_char((data[0] as int % 4) * 16 + data[1] as int / 16),
            alphabet_char((data[1] as int % 16) * 4 + data[2] as int / 64),
            alphabet_char(data[2] as int % 64),
        ] + standard_encoded(data.skip(3))
    }
}

/// The bytes whose standard encoding is `s`, if there are any (there is
/// at most one, by `lemma_encoding_injective`), else `None`.
pub open spec fn standard_decoded(s: Seq<char>) -> Option<Seq<u8>> {
    if exists|d: Seq<u8>| #[trigger] standard_encoded(d) == s {
        Some(choose|d: Seq<u8>| #[trigger] standard_encoded(d) == s)
    } else {
        None
    }
}

/// The alphabet gives each six-bit value its own character, never `=`.
proof fn lemma_alphabet_char_distinct(v: int, w: int)
    requires
        0 <= v < 64,
        0 <= w < 64,
    ensures
        alphabet_char(v) != '=',
        alphabet_char(v) == alphabet_char(w) ==> v == w,
{
}

/// Three bytes are recovered from the four six-bit values they encode.
proof fn lemma_group_bytes(a0: u8, a1: u8, a2: u8, b0: u8, b1: u8, b2: u8)
    requires
        a0 / 4 == b0 / 4,
        (a0 % 4) * 16 + a1 / 16 == (b0 % 4) * 16 + b1 / 16,
        (a1 % 16) * 4 + a2 / 64 == (b1 % 16) * 4 + b2 / 64,
        a2 % 64 == b2 % 64,
    ensures
        a0 == b0 && a1 == b1 && a2 == b2,
{
}

/// The byte at `i` of `d`, or 0 past its end.
spec fn byte_or_zero(d: Seq<u8>, i: int) -> int {
    if i < d.len() { d[i] as int } else { 0 }
}

/// The first group of four characters of a non-empty encoding, and the
/// encoding of the rest after a full group.
proof fn lemma_encoded_head(d: Seq<u8>)
    requires
        d.len() > 0,
    ensures
        ({
            let e = standard_encoded(d);
            let (d0, d1, d2) = (d[0] as int, byte_or_zero(d, 1), byte_or_zero(d, 2));
            &&& e.len() >= 4
            &&& e[0] == alphabet_char(d0 / 4)
            &&& e[1] == alphabet_char((d0 % 4) * 16 + d1 / 16)
            &&& (d.len() == 1 ==> e[2] == '=' && e[3] == '=')
            &&& (d.len() >= 2 ==> e[2] == alphabet_char((d1 % 16) * 4 + d2 / 64))
            &&& (d.len() == 2 ==> e[3] == '=')
            &&& (d.len() >= 3 ==> e[3] == alphabet_char(d2 % 64) && e.subrange(4, e.len() as int) =~= standard_encoded(d.skip(3)))
        }),
{
}

/// Different bytes have different standard encodings.
pub proof fn lemma_encoding_injective(a: Seq<u8>, b: Seq<u8>)
    requires
        standard_encoded(a) == standard_encoded(b),
    ensures
        a == b,
    decreases a.len(),
{
    if a.len() == 0 || b.len() == 0 {
        if a.len() > 0 { lemma_encoded_head(a); }
        if b.len() > 0 { lemma_encoded_head(b); }
        assert(a =~= b);
    } else {
        lemma_encoded_head(a);
        lemma_encoded_head(b);
        let (a0, a1, a2) = (a[0] as int, byte_or_zero(a, 1), byte_or_zero(a, 2));
        let (b0, b1, b2) = (b[0] as int, byte_or_zero(b, 1), byte_or_zero(b, 2));
        // Which of the three shapes each side has is told by the padding.
        lemma_alphabet_char_distinct((a1 % 16) * 4 + a2 / 64, 0);
        lemma_alphabet_char_distinct((b1 % 16) * 4 + b2 / 64, 0);
        lemma_alphabet_char_distinct(a2 % 64, 0);
        lemma_alphabet_char_distinct(b2 % 64, 0);
        assert(a.len() == 1 <==> b.len() == 1);
        assert(a.len() == 2 <==> b.len() == 2);
        lemma_alphabet_char_distinct(a0 / 4, b0 / 4);
        lemma_alphabet_char_distinct((a0 % 4) * 16 + a1 / 16, (b0 % 4) * 16 + b1 / 16);
        if a.len() >= 2 {
            lemma_alphabet_char_distinct((a1 % 16) * 4 + a2 / 64, (b1 % 16) * 4 + b2 / 64);
        }
        if a.len() >= 3 {
            lemma_alphabet_char_distinct(a2 % 64, b2 % 64);
        }
        lemma_group_bytes(a0 as u8, a1 as u8, a2 as u8, b0 as u8, b1 as u8, b2 as u8);
        if a.len() >= 3 {
            lemma_encoding_injective(a.skip(3), b.skip(3));
            assert(a =~= a.take(3) + a.skip(3));
            assert(b =~= b.take(3) + b.skip(3));
            assert(a.take(3) =~= b.take(3));
        } else {
            assert(a =~= b);
        }
    }
}

/// Decoding the standard encoding of some bytes gives those bytes back.
pub proof fn lemma_decode_encoded(data: Seq<u8>)
    ensures
        standard_decoded(standard_encoded(data)) == Some(data),
{
    let s = standard_encoded(data);
    assert(exists|d: Seq<u8>| #[trigger] standard_encoded(d) == s);
    let d = choose|d: Seq<u8>| #[trigger] standard_encoded(d) == s;
    lemma_encoding_injective(d, data);
}

/// Calls `STANDARD.decode`.  The STANDARD engine requires canonical
/// padding and zero trailing bits, so it accepts exactly the standard
/// encodings of byte strings and gives back those bytes
/// (`standard_decoded`).
#[verifier::external_body]
pub(crate) fn decode_standard(s: &str) -> (r: Option<Vec<u8>>)
    ensures
        r is Some <==> standard_decoded(s@) is Some,
        r matches Some(v) ==> v@ == standard_decoded(s@).unwrap(),
{
    match base64::engine::general_purpose::STANDARD.decode(s) {
        Ok(v) => Some(v),
        Err(_) => None,
    }
}

/// Calls `STANDARD.encode`, which writes the standard padded base64 of the
/// bytes (`standard_encoded`).
#[verifier::external_body]
pub(crate) fn encode_standard(data: &[u8]) -> (r: String)
    ensures
        r@ == standard_encoded(data@),
{
    base64::engine::general_purpose::STANDARD.encode(data)
}

} // verus!
