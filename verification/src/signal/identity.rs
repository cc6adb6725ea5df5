//! Per-device identity for the signal directory.
//!
//! The shared secret is a coarse admission gate: it keeps strangers off the
//! server, but every peer past it is equally privileged, so any of them could
//! `Register` someone else's `device_id` and evict the live host.
//!
//! So registration is additionally proved with an Ed25519 signature over a
//! server-issued nonce, and the server pins `device_id -> pubkey` on first use.
//! A later registration for a pinned id with a different key is refused instead
//! of evicting the incumbent.
//!
//! **Trust on first use** is the honest description of the guarantee: the very
//! first registration for a fresh `device_id` is taken on faith, exactly like
//! SSH's known_hosts.
//!
//! Hosts must always carry an identity. Controllers may omit one *unless* their
//! id is already pinned: without that exception, omitting the key would be a
//! trivial bypass of the whole mechanism.

use vstd::prelude::*;
use vstd::utf8::encode_utf8;

use super::protocol::ErrorCode;
use crate::crypto::{
    ed25519_key_ok, ed25519_point, ed25519_signed, ed25519_verify_strict, hex_bytes, hex_decode,
    hex_encode, is_hex, random_bytes,
};
use crate::strmap::StrMap;
use crate::text::{hex_text, same_bytes, same_text};

verus! {

/// Domain separation: a signature produced here can never be replayed as a
/// signature over anything else tether might sign in future.
pub const REGISTER_CONTEXT: &'static str = "tether-signal-register-v1";

/// The bytes that a registration signs: context, nonce and device id, a zero
/// byte between them.
pub open spec fn payload(nonce: Seq<char>, device_id: Seq<char>) -> Seq<u8> {
    encode_utf8(REGISTER_CONTEXT@).push(0) + encode_utf8(nonce).push(0) + encode_utf8(device_id)
}

/// Bytes both sides sign/verify for a registration. Binding the `device_id`
/// (not just the nonce) is what stops a signature captured for one device from
/// being replayed to claim another within the same connection.
pub fn register_payload(nonce: &str, device_id: &str) -> (v: Vec<u8>)
    ensures
        v@ == payload(nonce@, device_id@),
{
    let mut v: Vec<u8> = Vec::new();
    v.extend_from_slice(REGISTER_CONTEXT.as_bytes());
    v.push(0);
    v.extend_from_slice(nonce.as_bytes());
    v.push(0);
    v.extend_from_slice(device_id.as_bytes());
    assert(v@ =~= payload(nonce@, device_id@));
    v
}

/// The nonce that bytes stand for.
pub open spec fn nonce_of(bytes: Seq<u8>) -> Seq<char> {
    hex_text(bytes)
}

/// The nonce that 32 bytes stand for, hex encoded.
pub fn nonce_from(bytes: &[u8; 32]) -> (nonce: String)
    ensures
        nonce@ == nonce_of(bytes@),
        nonce@ == hex_text(bytes@),
{
    hex_encode(bytes.as_slice())
}

/// A fresh per-connection nonce, hex encoded. 32 bytes, so a client's signature
/// can't be precomputed or replayed onto another connection. `None` where the
/// system's random source fails.
pub fn new_nonce() -> (r: Option<String>)
    ensures
        r matches Some(nonce) ==> exists|bytes: Seq<u8>|
            bytes.len() == 32 && nonce@ == #[trigger] hex_text(bytes),
{
    match random_bytes(32) {
        Some(bytes) => Some(nonce_from(&array32(&bytes))),
        None => None,
    }
}

/// Why a registration's identity was refused. Each maps to an `ErrorCode` so
/// the client can tell "you need a key" from "your key is wrong".
#[derive(Debug, PartialEq, Eq)]
pub enum IdentityError {
    /// Identity is mandatory here (a host, or an already-pinned id) and absent.
    Missing,
    /// Malformed hex, wrong length, or not a valid curve point.
    Malformed(&'static str),
    /// The signature does not verify under the presented key.
    BadSignature,
    /// The presented key differs from the one pinned for this `device_id`.
    Mismatch,
}

impl IdentityError {
    /// The refusal in words.
    pub open spec fn text(self) -> Seq<char> {
        match self {
            IdentityError::Missing => "this device id requires a signed registration"@,
            IdentityError::Malformed(what) => "malformed identity: "@ + what@,
            IdentityError::BadSignature => "registration signature did not verify"@,
            IdentityError::Mismatch =>
                "device id is pinned to a different identity key; refusing to replace it"@,
        }
    }

    /// The code a client is sent for it.
    pub open spec fn code(self) -> ErrorCode {
        match self {
            IdentityError::Missing => ErrorCode::IdentityRequired,
            IdentityError::Malformed(_) => ErrorCode::BadIdentity,
            IdentityError::BadSignature => ErrorCode::BadIdentity,
            IdentityError::Mismatch => ErrorCode::IdentityMismatch,
        }
    }

    pub fn message(&self) -> (r: String)
        ensures
            r@ == self.text(),
    {
        match self {
            IdentityError::Missing => "this device id requires a signed registration".to_owned(),
            IdentityError::Malformed(what) => {
                let mut r: String = "malformed identity: ".to_owned();
                r.append(what);
                r
            },
            IdentityError::BadSignature => "registration signature did not verify".to_owned(),
            IdentityError::Mismatch =>
                "device id is pinned to a different identity key; refusing to replace it".to_owned(),
        }
    }

    pub fn error_code(&self) -> (r: ErrorCode)
        ensures
            r == self.code(),
    {
        match self {
            IdentityError::Missing => ErrorCode::IdentityRequired,
            IdentityError::Malformed(_) => ErrorCode::BadIdentity,
            IdentityError::BadSignature => ErrorCode::BadIdentity,
            IdentityError::Mismatch => ErrorCode::IdentityMismatch,
        }
    }
}

/// Bytes given in hexadecimal, of an exact length.
pub open spec fn parse_bytes(
    s: Seq<char>,
    len: nat,
    not_hex: &'static str,
    wrong_len: &'static str,
) -> Result<Seq<u8>, IdentityError> {
    if !is_hex(s) {
        Err(IdentityError::Malformed(not_hex))
    } else if hex_bytes(s).len() != len {
        Err(IdentityError::Malformed(wrong_len))
    } else {
        Ok(hex_bytes(s))
    }
}

/// Whether a presented key and signature are good for a nonce and a device id,
/// and the first thing wrong with them otherwise.
pub open spec fn signature_check(
    pubkey: Seq<char>,
    sig: Seq<char>,
    nonce: Seq<char>,
    device_id: Seq<char>,
) -> Result<(), IdentityError> {
    match parse_bytes(pubkey, 32, "pubkey is not hex", "pubkey is not 32 bytes") {
        Err(e) => Err(e),
        Ok(key) => if !ed25519_point(key) {
            Err(IdentityError::Malformed("pubkey is not a valid Ed25519 point"))
        } else {
            match parse_bytes(sig, 64, "signature is not hex", "signature is not 64 bytes") {
                Err(e) => Err(e),
                Ok(sig) => if !ed25519_signed(key, payload(nonce, device_id), sig) {
                    Err(IdentityError::BadSignature)
                } else {
                    Ok(())
                },
            }
        },
    }
}

fn array32(v: &Vec<u8>) -> (r: [u8; 32])
    requires
        v@.len() == 32,
    ensures
        r@ == v@,
{
    let mut r: [u8; 32] = [0;32];
    let mut i: usize = 0;
    while i < 32
        invariant
            i <= 32,
            v@.len() == 32,
            forall|j: int| 0 <= j < i ==> r@[j] == v@[j],
        decreases 32 - i,
    {
        r[i] = v[i];
        i += 1;
    }
    assert(r@ =~= v@);
    r
}

fn array64(v: &Vec<u8>) -> (r: [u8; 64])
    requires
        v@.len() == 64,
    ensures
        r@ == v@,
{
    let mut r: [u8; 64] = [0;64];
    let mut i: usize = 0;
    while i < 64
        invariant
            i <= 64,
            v@.len() == 64,
            forall|j: int| 0 <= j < i ==> r@[j] == v@[j],
        decreases 64 - i,
    {
        r[i] = v[i];
        i += 1;
    }
    assert(r@ =~= v@);
    r
}

/// Verify a presented key + signature against the connection's nonce. Pure:
/// pinning is the caller's job.
pub fn verify_signature(
    pubkey_hex: &str,
    sig_hex: &str,
    nonce: &str,
    device_id: &str,
) -> (r: Result<(), IdentityError>)
    ensures
        r == signature_check(pubkey_hex@, sig_hex@, nonce@, device_id@),
{
    let key_bytes: [u8; 32] = match hex_decode(pubkey_hex) {
        None => return Err(IdentityError::Malformed("pubkey is not hex")),
        Some(v) => {
            if v.len() != 32 {
                return Err(IdentityError::Malformed("pubkey is not 32 bytes"));
            }
            array32(&v)
        },
    };
    if !ed25519_key_ok(&key_bytes) {
        return Err(IdentityError::Malformed("pubkey is not a valid Ed25519 point"));
    }
    let sig_bytes: [u8; 64] = match hex_decode(sig_hex) {
        None => return Err(IdentityError::Malformed("signature is not hex")),
        Some(v) => {
            if v.len() != 64 {
                return Err(IdentityError::Malformed("signature is not 64 bytes"));
            }
            array64(&v)
        },
    };
    let signed: Vec<u8> = register_payload(nonce, device_id);
    if ed25519_verify_strict(&key_bytes, signed.as_slice(), &sig_bytes) {
        Ok(())
    } else {
        Err(IdentityError::BadSignature)
    }
}

/// A key that was presented, and what checking its signature gave.
#[verifier::ext_equal]
pub struct Presented {
    pub pubkey: Seq<char>,
    pub checked: Result<(), IdentityError>,
}

/// Whether two texts give the same key: hexadecimal digits of either case.
pub open spec fn same_key(a: Seq<char>, b: Seq<char>) -> bool {
    a == b || (is_hex(a) && is_hex(b) && hex_bytes(a) == hex_bytes(b))
}

fn is_same_key(a: &str, b: &str) -> (r: bool)
    ensures
        r == same_key(a@, b@),
{
    if same_text(a, b) {
        return true;
    }
    match (hex_decode(a), hex_decode(b)) {
        (Some(x), Some(y)) => same_bytes(x.as_slice(), y.as_slice()),
        _ => false,
    }
}

/// What the pins say of a registration, and the pins afterwards: only a fresh
/// id with a good signature adds one.
pub open spec fn decided(
    pinned: Map<Seq<char>, Seq<char>>,
    device_id: Seq<char>,
    presented: Option<Presented>,
    requires_identity: bool,
) -> (Map<Seq<char>, Seq<char>>, Result<(), IdentityError>) {
    match presented {
        None => if pinned.dom().contains(device_id) || requires_identity {
            (pinned, Err(IdentityError::Missing))
        } else {
            (pinned, Ok(()))
        },
        Some(p) => match p.checked {
            Err(e) => (pinned, Err(e)),
            Ok(()) => if !pinned.dom().contains(device_id) {
                (pinned.insert(device_id, p.pubkey), Ok(()))
            } else if !same_key(pinned[device_id], p.pubkey) {
                (pinned, Err(IdentityError::Mismatch))
            } else {
                (pinned, Ok(()))
            },
        },
    }
}

/// An identity counts as presented where key and signature are both there.
pub open spec fn presented_for(
    pubkey: Option<Seq<char>>,
    sig: Option<Seq<char>>,
    nonce: Seq<char>,
    device_id: Seq<char>,
) -> Option<Presented> {
    if pubkey is Some && sig is Some {
        Some(
            Presented {
                pubkey: pubkey->0,
                checked: signature_check(pubkey->0, sig->0, nonce, device_id),
            },
        )
    } else {
        None
    }
}

/// An optional text as a value.
pub open spec fn str_opt(s: Option<&str>) -> Option<Seq<char>> {
    match s {
        Some(s) => Some(s@),
        None => None,
    }
}

/// The pinned `device_id -> pubkey` directory.
#[derive(Debug)]
pub struct IdentityStore {
    pinned: StrMap<String>,
}

/// Pins as a value.
pub open spec fn pins_view(m: Map<Seq<char>, String>) -> Map<Seq<char>, Seq<char>> {
    m.map_values(|s: String| s@)
}

impl View for IdentityStore {
    type V = Map<Seq<char>, Seq<char>>;

    closed spec fn view(&self) -> Map<Seq<char>, Seq<char>> {
        pins_view(self.pinned@)
    }
}

impl IdentityStore {
    pub closed spec fn wf(&self) -> bool {
        self.pinned.wf()
    }

    /// A store with the pins of an earlier run.
    pub fn with_pins(pinned: StrMap<String>) -> (r: Self)
        requires
            pinned.wf(),
        ensures
            r.wf(),
            r@ == pins_view(pinned@),
    {
        IdentityStore { pinned }
    }

    /// An empty store: pinning holds for the process lifetime only.
    pub fn ephemeral() -> (r: Self)
        ensures
            r.wf(),
            r@ == Map::<Seq<char>, Seq<char>>::empty(),
    {
        let r = IdentityStore { pinned: StrMap::new() };
        assert(r@ =~= Map::<Seq<char>, Seq<char>>::empty());
        r
    }

    /// The pins, to be stored.
    pub fn pins(&self) -> (r: &StrMap<String>)
        requires
            self.wf(),
        ensures
            r.wf(),
            pins_view(r@) == self@,
    {
        &self.pinned
    }

    pub fn len(&self) -> (n: usize)
        requires
            self.wf(),
        ensures
            self@.dom().finite(),
            n == self@.len(),
    {
        assert(self@.dom() =~= self.pinned@.dom());
        self.pinned.len()
    }

    pub fn is_empty(&self) -> (r: bool)
        requires
            self.wf(),
        ensures
            r == (self@ == Map::<Seq<char>, Seq<char>>::empty()),
    {
        let r: bool = self.pinned.is_empty();
        proof {
            assert(self@.dom() =~= self.pinned@.dom());
            if r {
                assert(self@ =~= Map::empty());
            } else {
                assert(self.pinned@ =~= Map::empty() || self.pinned@.dom() != Set::<
                    Seq<char>,
                >::empty());
            }
        }
        r
    }

    /// Check a registration and pin the key if this id is new.
    ///
    /// `requires_identity` is true for hosts; an id that is already pinned
    /// always requires one regardless, or omitting the key would bypass the pin.
    pub fn authorize(
        &mut self,
        device_id: &str,
        nonce: &str,
        pubkey: Option<&str>,
        sig: Option<&str>,
        requires_identity: bool,
    ) -> (r: Result<(), IdentityError>)
        requires
            old(self).wf(),
        ensures
            final(self).wf(),
            (final(self)@, r) == decided(
                old(self)@,
                device_id@,
                presented_for(str_opt(pubkey), str_opt(sig), nonce@, device_id@),
                requires_identity,
            ),
    {
        // Verify before comparing against the pin: an unverified key is just an
        // attacker-supplied string, and comparing it first would let a squatter
        // learn whether an id is pinned without holding any key at all.
        match (pubkey, sig) {
            (Some(pubkey), Some(sig)) => {
                let checked: Result<(), IdentityError> = verify_signature(
                    pubkey,
                    sig,
                    nonce,
                    device_id,
                );
                self.decide_presented(device_id, pubkey, checked)
            },
            _ => self.decide_absent(device_id, requires_identity),
        }
    }

    /// A registration without an identity.
    pub fn decide_absent(&self, device_id: &str, requires_identity: bool) -> (r: Result<
        (),
        IdentityError,
    >)
        requires
            self.wf(),
        ensures
            (self@, r) == decided(self@, device_id@, None, requires_identity),
    {
        if self.pinned.contains(device_id) || requires_identity {
            Err(IdentityError::Missing)
        } else {
            Ok(())
        }
    }

    /// A registration whose signature has been checked.
    pub fn decide_presented(
        &mut self,
        device_id: &str,
        pubkey: &str,
        checked: Result<(), IdentityError>,
    ) -> (r: Result<(), IdentityError>)
        requires
            old(self).wf(),
        ensures
            final(self).wf(),
            forall|requires_identity: bool|
                (final(self)@, r) == #[trigger] decided(
                    old(self)@,
                    device_id@,
                    Some(Presented { pubkey: pubkey@, checked }),
                    requires_identity,
                ),
    {
        match checked {
            Err(e) => return Err(e),
            Ok(()) => {},
        }
        match self.pinned.get(device_id) {
            Some(existing) => {
                if is_same_key(existing.as_str(), pubkey) {
                    return Ok(());
                } else {
                    return Err(IdentityError::Mismatch);
                }
            },
            None => {},
        }
        let ghost before = self.pinned@;
        let key: String = pubkey.to_owned();
        let _ = self.pinned.insert(device_id.to_owned(), key);
        assert(pins_view(before.insert(device_id@, key)) =~= pins_view(before).insert(
            device_id@,
            key@,
        ));
        Ok(())
    }
}

} // verus!
