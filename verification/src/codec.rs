//! Canonical padded base64 over the standard alphabet, as a mathematical
//! encoding together with the executable decoder that accepts exactly it.

use base64::Engine;
use vstd::prelude::*;

verus! {

/// The symbol that stands for the six-bit value `v`.
pub open spec fn symbol(v: int) -> char
    recommends
        0 <= v < 64,
{
    if v < 26 {
        ((65 + v) as u8) as char
    } else if v < 52 {
        ((97 + (v - 26)) as u8) as char
    } else if v < 62 {
        ((48 + (v - 52)) as u8) as char
    } else if v == 62 {
        '+'
    } else {
        '/'
    }
}

/// The padding symbol.
pub open spec fn pad() -> char {
    '='
}

/// The four symbols that encode one to three leading bytes of `bytes`.
pub open spec fn quad(bytes: Seq<u8>) -> Seq<char>
    recommends
        bytes.len() >= 1,
{
    let b0 = bytes[0] as int;
    if bytes.len() == 1 {
        seq![symbol(b0 / 4), symbol((b0 % 4) * 16), pad(), pad()]
    } else if bytes.len() == 2 {
        let b1 = bytes[1] as int;
        seq![symbol(b0 / 4), symbol((b0 % 4) * 16 + b1 / 16), symbol((b1 % 16) * 4), pad()]
    } else {
        let b1 = bytes[1] as int;
        let b2 = bytes[2] as int;
        seq![
            symbol(b0 / 4),
            symbol((b0 % 4) * 16 + b1 / 16),
            symbol((b1 % 16) * 4 + b2 / 64),
            symbol(b2 % 64),
        ]
    }
}

/// The canonical padded base64 text of `bytes`.
pub open spec fn encode(bytes: Seq<u8>) -> Seq<char>
    decreases bytes.len(),
{
    if bytes.len() == 0 {
        Seq::empty()
    } else if bytes.len() <= 3 {
        quad(bytes)
    } else {
        quad(bytes.take(3)) + encode(bytes.skip(3))
    }
}

/// Whether `text` is the canonical encoding of some byte string.
pub open spec fn is_canonical(text: Seq<char>) -> bool {
    exists|bytes: Seq<u8>| #[trigger] encode(bytes) == text
}

/// The byte string that `text` encodes, if it is canonical.
pub open spec fn decode(text: Seq<char>) -> Option<Seq<u8>> {
    if is_canonical(text) {
        Some(choose|bytes: Seq<u8>| #[trigger] encode(bytes) == text)
    } else {
        None
    }
}

proof fn lemma_symbol_injective(a: int, b: int)
    requires
        0 <= a < 64,
        0 <= b < 64,
        symbol(a) == symbol(b),
    ensures
        a == b,
{
}

proof fn lemma_symbol_not_pad(a: int)
    requires
        0 <= a < 64,
    ensures
        symbol(a) != pad(),
{
}

/// Every encoding is a whole number of four-symbol groups.
pub proof fn lemma_encode_len(bytes: Seq<u8>)
    ensures
        encode(bytes).len() == 4 * ((bytes.len() + 2) / 3),
    decreases bytes.len(),
{
    if bytes.len() > 3 {
        lemma_encode_len(bytes.skip(3));
    }
}

proof fn lemma_quad_injective(a: Seq<u8>, b: Seq<u8>)
    requires
        1 <= a.len() <= 3,
        1 <= b.len() <= 3,
        quad(a) == quad(b),
    ensures
        a == b,
{
    let qa = quad(a);
    let qb = quad(b);
    assert(qa[0] == qb[0] && qa[1] == qb[1] && qa[2] == qb[2] && qa[3] == qb[3]);
    let a0 = a[0] as int;
    let b0 = b[0] as int;
    lemma_symbol_injective(a0 / 4, b0 / 4);
    if a.len() == 1 {
        lemma_symbol_not_pad((b0 % 4) * 16);
        if b.len() >= 2 {
            let b1 = b[1] as int;
            if b.len() == 2 {
                lemma_symbol_not_pad((b1 % 16) * 4);
            } else {
                lemma_symbol_not_pad((b1 % 16) * 4 + (b[2] as int) / 64);
            }
        }
        lemma_symbol_injective((a0 % 4) * 16, (b0 % 4) * 16);
    } else if a.len() == 2 {
        let a1 = a[1] as int;
        lemma_symbol_not_pad((a1 % 16) * 4);
        if b.len() == 3 {
            lemma_symbol_not_pad((b[2] as int) % 64);
        }
        if b.len() == 2 {
            let b1 = b[1] as int;
            lemma_symbol_injective((a0 % 4) * 16 + a1 / 16, (b0 % 4) * 16 + b1 / 16);
            lemma_symbol_injective((a1 % 16) * 4, (b1 % 16) * 4);
        }
    } else {
        let a1 = a[1] as int;
        let a2 = a[2] as int;
        lemma_symbol_not_pad(a2 % 64);
        lemma_symbol_not_pad((a1 % 16) * 4 + a2 / 64);
        if b.len() == 3 {
            let b1 = b[1] as int;
            let b2 = b[2] as int;
            lemma_symbol_injective((a0 % 4) * 16 + a1 / 16, (b0 % 4) * 16 + b1 / 16);
            lemma_symbol_injective((a1 % 16) * 4 + a2 / 64, (b1 % 16) * 4 + b2 / 64);
            lemma_symbol_injective(a2 % 64, b2 % 64);
        }
    }
    assert(a =~= b);
}

/// Two byte strings with the same encoding are the same byte string.
pub proof fn lemma_encode_injective(a: Seq<u8>, b: Seq<u8>)
    requires
        encode(a) == encode(b),
    ensures
        a == b,
    decreases a.len(),
{
    lemma_encode_len(a);
    lemma_encode_len(b);
    if a.len() == 0 || b.len() == 0 {
        assert(a =~= b);
    } else if a.len() <= 3 || b.len() <= 3 {
        lemma_quad_injective(a, b);
    } else {
        let qa = quad(a.take(3));
        let qb = quad(b.take(3));
        let ta = encode(a.skip(3));
        let tb = encode(b.skip(3));
        assert(qa =~= encode(a).take(4));
        assert(qb =~= encode(b).take(4));
        assert(ta =~= encode(a).skip(4));
        assert(tb =~= encode(b).skip(4));
        lemma_quad_injective(a.take(3), b.take(3));
        lemma_encode_injective(a.skip(3), b.skip(3));
        assert(a =~= a.take(3) + a.skip(3));
        assert(b =~= b.take(3) + b.skip(3));
    }
}

/// Decoding undoes encoding.
pub proof fn lemma_decode_encode(bytes: Seq<u8>)
    ensures
        decode(encode(bytes)) == Some(bytes),
{
    let text = encode(bytes);
    assert(is_canonical(text));
    let found = choose|b: Seq<u8>| #[trigger] encode(b) == text;
    lemma_encode_injective(found, bytes);
}

/// Encoding undoes decoding, wherever decoding succeeds.
pub proof fn lemma_encode_decode(text: Seq<char>)
    requires
        decode(text) is Some,
    ensures
        encode(decode(text)->0) == text,
{
}

/// The decoder of `base64`'s `STANDARD` engine. That engine pads when it
/// encodes, and when it decodes it demands the padding and refuses set bits
/// behind the last byte, so it accepts a text exactly when the text is the
/// canonical encoding of the bytes it hands back.
#[verifier::external_body]
pub(crate) fn decode_standard(text: &str) -> (r: Result<Vec<u8>, base64::DecodeError>)
    ensures
        r matches Ok(bytes) ==> encode(bytes@) == text@,
        r is Err ==> !is_canonical(text@),
{
    base64::engine::general_purpose::STANDARD.decode(text)
}

/// The error with which `base64` refuses a text.
#[verifier::external_type_specification]
#[verifier::external_body]
pub struct ExDecodeError(base64::DecodeError);

} // verus!
