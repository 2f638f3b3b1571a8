//! Keyed signatures: hexadecimal text, and HMAC-SHA256.
use vstd::prelude::*;
use hmac::{Hmac, Mac};
use sha2::Sha256;

verus! {

/// Whether a character is a hexadecimal digit.
pub open spec fn is_hex(c: char) -> bool {
    '0' <= c <= '9' || 'a' <= c <= 'f' || 'A' <= c <= 'F'
}

/// The value of a hexadecimal digit.
pub open spec fn hex_value(c: char) -> int {
    if '0' <= c <= '9' {
        c as int - '0' as int
    } else if 'a' <= c <= 'f' {
        c as int - 'a' as int + 10
    } else {
        c as int - 'A' as int + 10
    }
}

/// The bytes that a hexadecimal text stands for, two digits a byte.
pub open spec fn hex_bytes(s: Seq<char>) -> Option<Seq<u8>> {
    if s.len() % 2 == 0 && forall|i: int| 0 <= i < s.len() ==> is_hex(#[trigger] s[i]) {
        Some(
            Seq::new(
                s.len() / 2,
                |i: int| (16 * hex_value(s[2 * i]) + hex_value(s[2 * i + 1])) as u8,
            ),
        )
    } else {
        None
    }
}

/// `hex::decode`: a text of an even number of hexadecimal digits, in either
/// case, gives one byte for each two digits; any other text is an error.
#[verifier::external_body]
pub(crate) fn decode_hex(s: &str) -> (bytes: Option<Vec<u8>>)
    ensures
        match bytes {
            Some(b) => hex_bytes(s@) == Some(b@),
            None => hex_bytes(s@) is None,
        },
{
    hex::decode(s).ok()
}

/// The HMAC-SHA256 tag of a message under a key.
pub uninterp spec fn hmac_sha256(key: Seq<u8>, message: Seq<u8>) -> Seq<u8>;

/// `hmac::Hmac::<sha2::Sha256>` on a key and a message, compared with a tag by
/// `Mac::verify_slice`: the tag is accepted exactly when it is the whole tag of
/// the message under the key, and that has 32 bytes. A key of any length is
/// accepted.
#[verifier::external_body]
pub(crate) fn hmac_matches(key: &[u8], message: &[u8], tag: &[u8]) -> (matches: bool)
    ensures
        matches == (tag@ == hmac_sha256(key@, message@)),
        matches ==> tag@.len() == 32,
{
    let mac = Hmac::<Sha256>::new_from_slice(key).map(|mac| mac.chain_update(message));
    mac.is_ok_and(|mac| mac.verify_slice(tag).is_ok())
}

/// Puts `more` behind `bytes`.
pub fn append_bytes(bytes: &mut Vec<u8>, more: &[u8])
    ensures
        final(bytes)@ == old(bytes)@ + more@,
{
    let ghost before = bytes@;
    let mut i: usize = 0;
    assert(before + more@.take(0) =~= before);
    while i < more.len()
        invariant
            i <= more.len(),
            bytes@ == before + more@.take(i as int),
        decreases more.len() - i,
    {
        bytes.push(more[i]);
        assert(more@.take(i + 1) =~= more@.take(i as int).push(more@[i as int]));
        assert(bytes@ =~= before + more@.take(i + 1));
        i = i + 1;
    }
    assert(more@.take(more.len() as int) =~= more@);
}

/// The lower-case hexadecimal digit of a number below 16.
pub open spec fn lower_hex(n: int) -> char {
    if n < 10 {
        (0x30 + n) as char
    } else {
        (0x57 + n) as char
    }
}

/// Bytes in lower-case hexadecimal.
pub open spec fn hex_encoded(bytes: Seq<u8>) -> Seq<char> {
    Seq::new(
        2 * bytes.len(),
        |i: int|
            if i % 2 == 0 {
                lower_hex(bytes[i / 2] as int / 16)
            } else {
                lower_hex(bytes[i / 2] as int % 16)
            },
    )
}

/// Reading the hexadecimal form of bytes gives the bytes back.
pub proof fn law_hex_round_trip(bytes: Seq<u8>)
    ensures
        hex_bytes(hex_encoded(bytes)) == Some(bytes),
{
    let s = hex_encoded(bytes);
    assert forall|i: int| 0 <= i < s.len() implies is_hex(#[trigger] s[i]) by {
        let b = bytes[i / 2];
        assert(0 <= b as int / 16 < 16 && 0 <= b as int % 16 < 16);
    }
    assert forall|i: int| 0 <= i < bytes.len() implies 16 * hex_value(s[2 * i]) + hex_value(
        s[2 * i + 1],
    ) == (#[trigger] bytes[i]) as int by {
        let b = bytes[i];
        assert((2 * i) / 2 == i && (2 * i + 1) / 2 == i);
        assert((2 * i) % 2 == 0 && (2 * i + 1) % 2 == 1);
        assert(0 <= b as int / 16 < 16 && 0 <= b as int % 16 < 16);
        assert(hex_value(lower_hex(b as int / 16)) == b as int / 16);
        assert(hex_value(lower_hex(b as int % 16)) == b as int % 16);
        assert(16 * (b as int / 16) + b as int % 16 == b as int);
    }
    assert(hex_bytes(s)->0 =~= bytes);
}

} // verus!
