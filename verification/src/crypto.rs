//! The cryptographic functions of outside crates, as functions on bytes.

use base64::Engine;
use ed25519_dalek::Signer;
use hmac::{Hmac, Mac};
use sha1::Sha1;
use sha2::{Digest, Sha256};
use subtle::ConstantTimeEq;
use vstd::prelude::*;

use crate::text::hex_text;

verus! {

/// HMAC-SHA-256 of a message under a key.
pub uninterp spec fn hmac_sha256(key: Seq<u8>, msg: Seq<u8>) -> Seq<u8>;

/// HMAC-SHA-1 of a message under a key.
pub uninterp spec fn hmac_sha1(key: Seq<u8>, msg: Seq<u8>) -> Seq<u8>;

/// SHA-256 of a message.
pub uninterp spec fn sha256(msg: Seq<u8>) -> Seq<u8>;

/// Whether 32 bytes are the encoding of an Ed25519 public key.
pub uninterp spec fn ed25519_point(key: Seq<u8>) -> bool;

/// Whether a signature of a message verifies strictly under a public key.
pub uninterp spec fn ed25519_signed(key: Seq<u8>, msg: Seq<u8>, sig: Seq<u8>) -> bool;

/// The public key of an Ed25519 seed.
pub uninterp spec fn ed25519_public(seed: Seq<u8>) -> Seq<u8>;

/// The Ed25519 signature of a message under a seed.
pub uninterp spec fn ed25519_signature(seed: Seq<u8>, msg: Seq<u8>) -> Seq<u8>;

/// `Hmac::<Sha256>`: `new_from_slice`, which takes a key of any length, then
/// `update` and `finalize`. The tag is a function of key and message and has 32
/// bytes.
#[verifier::external_body]
pub(crate) fn hmac_sha256_tag(key: &[u8], msg: &[u8]) -> (tag: Vec<u8>)
    ensures
        tag@ == hmac_sha256(key@, msg@),
        tag@.len() == 32,
{
    let mut mac = Hmac::<Sha256>::new_from_slice(key).expect("HMAC accepts any key length");
    mac.update(msg);
    mac.finalize().into_bytes().to_vec()
}

/// `Hmac::<Sha1>`: `new_from_slice`, which takes a key of any length, then
/// `update` and `finalize`. The tag is a function of key and message and has 20
/// bytes.
#[verifier::external_body]
pub(crate) fn hmac_sha1_tag(key: &[u8], msg: &[u8]) -> (tag: Vec<u8>)
    ensures
        tag@ == hmac_sha1(key@, msg@),
        tag@.len() == 20,
{
    let mut mac = Hmac::<Sha1>::new_from_slice(key).expect("HMAC accepts any key length");
    mac.update(msg);
    mac.finalize().into_bytes().to_vec()
}

/// `Sha256::digest`: a function of the message.
#[verifier::external_body]
pub(crate) fn sha256_digest(msg: &[u8]) -> (r: [u8; 32])
    ensures
        r@ == sha256(msg@),
{
    Sha256::digest(msg).into()
}

/// `ConstantTimeEq::ct_eq` on byte slices: whether they hold the same bytes.
/// That it takes the same time wherever slices of one length differ is not
/// part of the contract.
#[verifier::external_body]
pub(crate) fn ct_eq(a: &[u8], b: &[u8]) -> (r: bool)
    ensures
        r == (a@ == b@),
{
    a.ct_eq(b).into()
}

/// `getrandom::fill`: `n` bytes from the system's random source, `None` where
/// the source fails. Nothing is said of the bytes.
#[verifier::external_body]
pub(crate) fn random_bytes(n: usize) -> (r: Option<Vec<u8>>)
    requires
        n <= isize::MAX,
    ensures
        r matches Some(v) ==> v@.len() == n,
{
    let mut buf = vec![0u8; n];
    match getrandom::fill(&mut buf) {
        Ok(()) => Some(buf),
        Err(_) => None,
    }
}

/// The value of a hexadecimal digit of either case.
pub open spec fn hex_value(c: char) -> Option<int> {
    if '0' <= c <= '9' {
        Some(c as int - '0' as int)
    } else if 'a' <= c <= 'f' {
        Some(c as int - 'a' as int + 10)
    } else if 'A' <= c <= 'F' {
        Some(c as int - 'A' as int + 10)
    } else {
        None
    }
}

/// An even number of hexadecimal digits.
pub open spec fn is_hex(s: Seq<char>) -> bool {
    s.len() % 2 == 0 && forall|i: int| 0 <= i < s.len() ==> hex_value(#[trigger] s[i]) is Some
}

/// The bytes that hexadecimal digits stand for, two digits each.
pub open spec fn hex_bytes(s: Seq<char>) -> Seq<u8> {
    Seq::new(
        s.len() / 2,
        |i: int| (16 * hex_value(s[2 * i])->0 + hex_value(s[2 * i + 1])->0) as u8,
    )
}

/// `hex::encode`: two lower-case digits for each byte. It panics where the text
/// would not fit an allocation.
#[verifier::external_body]
pub(crate) fn hex_encode(bytes: &[u8]) -> (s: String)
    requires
        2 * bytes@.len() <= isize::MAX,
    ensures
        s@ == hex_text(bytes@),
{
    hex::encode(bytes)
}

/// `hex::decode`: the bytes where the text is an even number of hexadecimal
/// digits of either case, and an error otherwise.
#[verifier::external_body]
pub(crate) fn hex_decode(s: &str) -> (r: Option<Vec<u8>>)
    ensures
        r is Some <==> is_hex(s@),
        r matches Some(v) ==> v@ == hex_bytes(s@),
{
    match hex::decode(s) {
        Ok(v) => Some(v),
        Err(_) => None,
    }
}

/// The standard base64 alphabet.
pub open spec fn base64_digit(v: int) -> char {
    if v < 26 {
        (65 + v) as char
    } else if v < 52 {
        (71 + v) as char
    } else if v < 62 {
        (v - 4) as char
    } else if v == 62 {
        '+'
    } else {
        '/'
    }
}

/// The byte at a place, zero past the end.
pub open spec fn byte_or_zero(b: Seq<u8>, i: int) -> int {
    if i < b.len() {
        b[i] as int
    } else {
        0
    }
}

/// Base64 with padding: four characters for every three bytes, six bits each,
/// and `=` where a group's byte is missing.
pub open spec fn base64_text(b: Seq<u8>) -> Seq<char> {
    Seq::new(
        4 * ((b.len() + 2) / 3),
        |i: int|
            {
                let at = 3 * (i / 4);
                let b0 = byte_or_zero(b, at);
                let b1 = byte_or_zero(b, at + 1);
                let b2 = byte_or_zero(b, at + 2);
                if i % 4 == 0 {
                    base64_digit(b0 / 4)
                } else if i % 4 == 1 {
                    base64_digit((b0 % 4) * 16 + b1 / 16)
                } else if i % 4 == 2 {
                    if at + 1 < b.len() {
                        base64_digit((b1 % 16) * 4 + b2 / 64)
                    } else {
                        '='
                    }
                } else {
                    if at + 2 < b.len() {
                        base64_digit(b2 % 64)
                    } else {
                        '='
                    }
                }
            },
    )
}

/// `STANDARD.encode` of the `base64` crate: the standard alphabet, padded. It
/// panics where the text would not fit an allocation.
#[verifier::external_body]
pub(crate) fn base64_encode(bytes: &[u8]) -> (s: String)
    requires
        base64_text(bytes@).len() <= isize::MAX,
    ensures
        s@ == base64_text(bytes@),
{
    base64::engine::general_purpose::STANDARD.encode(bytes)
}

/// `VerifyingKey::from_bytes`: whether the bytes decompress to a curve point.
#[verifier::external_body]
pub(crate) fn ed25519_key_ok(key: &[u8; 32]) -> (r: bool)
    ensures
        r == ed25519_point(key@),
{
    ed25519_dalek::VerifyingKey::from_bytes(key).is_ok()
}

/// `VerifyingKey::verify_strict` under a key and a signature given as bytes: a
/// function of key, message and signature. A key that is no curve point
/// verifies nothing.
#[verifier::external_body]
pub(crate) fn ed25519_verify_strict(key: &[u8; 32], msg: &[u8], sig: &[u8; 64]) -> (r: bool)
    ensures
        r == ed25519_signed(key@, msg@, sig@),
{
    match ed25519_dalek::VerifyingKey::from_bytes(key) {
        Ok(k) => k.verify_strict(msg, &ed25519_dalek::Signature::from_bytes(sig)).is_ok(),
        Err(_) => false,
    }
}

/// `SigningKey::verifying_key` of a key made from its seed: a function of the
/// seed.
#[verifier::external_body]
pub(crate) fn ed25519_public_key(seed: &[u8; 32]) -> (r: [u8; 32])
    ensures
        r@ == ed25519_public(seed@),
{
    ed25519_dalek::SigningKey::from_bytes(seed).verifying_key().to_bytes()
}

/// `SigningKey::sign` under a key made from its seed: Ed25519 signatures are a
/// function of seed and message. That the signature verifies under the seed's
/// public key is not part of the contract: strict verification refuses a
/// commitment of small order, which no known message leads to but which nothing
/// rules out.
#[verifier::external_body]
pub(crate) fn ed25519_sign(seed: &[u8; 32], msg: &[u8]) -> (r: [u8; 64])
    ensures
        r@ == ed25519_signature(seed@, msg@),
{
    ed25519_dalek::SigningKey::from_bytes(seed).sign(msg).to_bytes()
}

} // verus!
