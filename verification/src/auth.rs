//! Host-side device pairing and authentication.
//!
//! Per-device pairing the host controls and can revoke. The load-bearing
//! properties:
//!
//! * **Channel-bound pairing proof**: the pairing code is never sent; the
//!   controller proves knowledge via `HMAC(code, channel_binding)` where the
//!   binding is a hash of both ends' DTLS fingerprints. A malicious relay that
//!   sits in the middle derives a different binding and fails to pair.
//! * **Consume-on-attempt + lockout**: one outstanding high-entropy code; any
//!   wrong guess burns it, and repeated failures trigger a cooldown, so the
//!   code can't be brute-forced over the control channel.
//! * **HMAC capability tokens gated on an allowlist**: `token =
//!   HMAC(host_key, device_id || ":" || paired_at)`. Revocation removes the
//!   device from the allowlist, so the token stops working even though it still
//!   mathematically verifies. `paired_at` binding means re-pairing rotates it.
//!
//! Everything here is pure given an injected clock (`now_unix`).

use vstd::arithmetic::power2::{lemma2_to64, pow2};
use vstd::prelude::*;
use vstd::utf8::{encode_utf8, is_char_boundary};

use crate::crypto::{ct_eq, hmac_sha256, hmac_sha256_tag, random_bytes, sha256, sha256_digest};
use crate::le::read_u64;
use crate::strmap::StrMap;
use crate::text::{
    bytes_le, decimal, hex, hex_text, numeral, push_numeral, text_le, uppercase, white_space,
};

pub mod laws;
pub mod rules;

verus! {

/// How long a pairing code is good for, in seconds.
pub const CODE_TTL_SECS: u64 = 300;

/// Failed attempts that trip a lockout.
pub const LOCKOUT_THRESHOLD: u32 = 3;

/// The first cooldown, in seconds.
pub const LOCKOUT_SECS: u64 = 60;

/// A cooldown doubles with each lockout up to this many times.
pub const MAX_DOUBLINGS: u32 = 10;

/// The longest cooldown, in seconds.
pub const MAX_COOLDOWN_SECS: u64 = 61_440;

/// Longest device id that can pair, in bytes.
pub const MAX_DEVICE_ID_LEN: usize = 128;

/// Crockford base32, excluding I/L/O/U to avoid transcription errors.
pub const CROCKFORD: &'static str = "0123456789ABCDEFGHJKMNPQRSTVWXYZ";

#[derive(Debug, Clone, PartialEq, Eq)]
pub struct PairedDevice {
    pub name: String,
    pub paired_at: u64,
}

/// A paired device as a value.
#[verifier::ext_equal]
pub struct DeviceModel {
    pub name: Seq<char>,
    pub paired_at: u64,
}

impl View for PairedDevice {
    type V = DeviceModel;

    open spec fn view(&self) -> DeviceModel {
        DeviceModel { name: self.name@, paired_at: self.paired_at }
    }
}

/// Outcome of verifying a pairing attempt.
#[derive(Debug, PartialEq, Eq)]
pub enum PairOutcome {
    /// Code + channel binding verified; the issued token to return.
    Paired { token: String },
    /// Wrong code/binding (the code is now consumed).
    Rejected,
    /// Too many recent failures; pairing refused until the cooldown elapses.
    LockedOut,
    /// No code is armed (or it expired).
    NoActiveCode,
}

/// An outcome as a value.
#[verifier::ext_equal]
pub enum OutcomeModel {
    Paired { token: Seq<char> },
    Rejected,
    LockedOut,
    NoActiveCode,
}

impl View for PairOutcome {
    type V = OutcomeModel;

    open spec fn view(&self) -> OutcomeModel {
        match *self {
            PairOutcome::Paired { token } => OutcomeModel::Paired { token: token@ },
            PairOutcome::Rejected => OutcomeModel::Rejected,
            PairOutcome::LockedOut => OutcomeModel::LockedOut,
            PairOutcome::NoActiveCode => OutcomeModel::NoActiveCode,
        }
    }
}

struct ActiveCode {
    code: String,
    expires_at: u64,
}

/// A code that is armed, and when it stops being good.
#[verifier::ext_equal]
pub struct CodeModel {
    pub code: Seq<char>,
    pub expires_at: u64,
}

/// The pairing state of a host as a value.
#[verifier::ext_equal]
pub struct AuthModel {
    pub host_key: Seq<u8>,
    pub devices: Map<Seq<char>, DeviceModel>,
    pub active: Option<CodeModel>,
    pub fail_count: u32,
    pub locked_until: u64,
    pub lockout_count: u32,
}

/// The proof that belongs to a code on a channel.
pub open spec fn proof_for(code: Seq<char>, binding: Seq<u8>) -> Seq<u8> {
    hmac_sha256(encode_utf8(code), binding)
}

/// The token of a device that was paired at some time.
pub open spec fn token_for(host_key: Seq<u8>, device_id: Seq<char>, paired_at: u64) -> Seq<char> {
    hex_text(hmac_sha256(host_key, encode_utf8(device_id.push(':') + decimal(paired_at as nat))))
}

/// Ids that can pair: not empty, at most `MAX_DEVICE_ID_LEN` bytes.
pub open spec fn valid_device_id(device_id: Seq<char>) -> bool {
    0 < encode_utf8(device_id).len() <= MAX_DEVICE_ID_LEN
}

/// The cooldown after a lockout that follows `lockouts` others: doubling each
/// time, capped.
pub open spec fn cooldown(lockouts: u32) -> int {
    LOCKOUT_SECS * pow2(
        if lockouts < MAX_DOUBLINGS {
            lockouts as nat
        } else {
            MAX_DOUBLINGS as nat
        },
    )
}

/// A wrong proof counts against the budget; the last one the budget has trips
/// a lockout and starts the budget anew.
pub open spec fn after_failure(a: AuthModel, now: u64) -> AuthModel {
    if a.fail_count + 1 >= LOCKOUT_THRESHOLD {
        AuthModel {
            fail_count: 0,
            locked_until: (now + cooldown(a.lockout_count)) as u64,
            lockout_count: (a.lockout_count + 1) as u32,
            ..a
        }
    } else {
        AuthModel { fail_count: (a.fail_count + 1) as u32, ..a }
    }
}

/// Whether one more wrong proof would trip a lockout: the budget is all but used
/// up and there is a live code to try.
pub open spec fn may_trip(a: AuthModel, now: u64) -> bool {
    a.active is Some && a.locked_until <= now < a.active->0.expires_at && a.fail_count + 1
        >= LOCKOUT_THRESHOLD
}

/// Whether the clock and the counter have room for another lockout.
pub open spec fn room_for_lockout(a: AuthModel, now: u64) -> bool {
    &&& now <= u64::MAX - MAX_COOLDOWN_SECS || now + cooldown(a.lockout_count) <= u64::MAX
    &&& a.lockout_count < u32::MAX || now < LOCKOUT_SECS * u32::MAX
}

/// The state once a code is armed: the failure budget and the lockout stay as
/// they are.
pub open spec fn armed(a: AuthModel, code: Seq<char>, now: u64) -> AuthModel {
    AuthModel {
        active: Some(CodeModel { code, expires_at: (now + CODE_TTL_SECS) as u64 }),
        ..a
    }
}

/// What an attempt comes to once it is known whether its proof is right; the
/// token is the one to hand out in that case.
pub open spec fn concluded(
    a: AuthModel,
    device_id: Seq<char>,
    name: Seq<char>,
    proof_ok: bool,
    token: Seq<char>,
    now: u64,
) -> (AuthModel, OutcomeModel) {
    if now < a.locked_until {
        (AuthModel { active: None, ..a }, OutcomeModel::LockedOut)
    } else if a.active is None {
        (a, OutcomeModel::NoActiveCode)
    } else {
        let spent = AuthModel { active: None, ..a };
        if now >= a.active->0.expires_at {
            (spent, OutcomeModel::NoActiveCode)
        } else if !valid_device_id(device_id) {
            (spent, OutcomeModel::Rejected)
        } else if !proof_ok {
            (after_failure(spent, now), OutcomeModel::Rejected)
        } else {
            (
                AuthModel {
                    devices: a.devices.insert(device_id, DeviceModel { name, paired_at: now }),
                    fail_count: 0,
                    lockout_count: 0,
                    ..spent
                },
                OutcomeModel::Paired { token },
            )
        }
    }
}

/// What a pairing attempt does and what comes of it: the proof must be the one
/// that belongs to the armed code on this channel.
pub open spec fn attempt(
    a: AuthModel,
    device_id: Seq<char>,
    name: Seq<char>,
    given: Seq<u8>,
    binding: Seq<u8>,
    now: u64,
) -> (AuthModel, OutcomeModel) {
    concluded(
        a,
        device_id,
        name,
        a.active is Some && given == proof_for(a.active->0.code, binding),
        token_for(a.host_key, device_id, now),
        now,
    )
}

/// Whether a token lets a device in: the device is on the allowlist and the
/// token is the one of its pairing.
pub open spec fn token_ok(a: AuthModel, device_id: Seq<char>, token: Seq<char>) -> bool {
    a.devices.dom().contains(device_id) && token == token_for(
        a.host_key,
        device_id,
        a.devices[device_id].paired_at,
    )
}

/// The state without a device.
pub open spec fn revoked(a: AuthModel, device_id: Seq<char>) -> AuthModel {
    AuthModel { devices: a.devices.remove(device_id), ..a }
}

/// Eight base32 characters out of 40 bits, the highest five bits first.
pub open spec fn code_text(bits: u64) -> Seq<char> {
    Seq::new(8, |i: int| CROCKFORD@[((bits >> ((35 - 5 * i) as u64)) % 32) as int])
}

pub struct PairingAuth {
    host_key: [u8; 32],
    devices: StrMap<PairedDevice>,
    active: Option<ActiveCode>,
    fail_count: u32,
    locked_until: u64,
    /// How many lockouts have tripped since the last success; drives an
    /// escalating cooldown so a throttled grinder backs off exponentially.
    lockout_count: u32,
}

/// An allowlist as a value.
pub open spec fn devices_view(m: Map<Seq<char>, PairedDevice>) -> Map<Seq<char>, DeviceModel> {
    m.map_values(|d: PairedDevice| d@)
}

impl View for PairingAuth {
    type V = AuthModel;

    closed spec fn view(&self) -> AuthModel {
        AuthModel {
            host_key: self.host_key@,
            devices: devices_view(self.devices@),
            active: match self.active {
                Some(a) => Some(CodeModel { code: a.code@, expires_at: a.expires_at }),
                None => None,
            },
            fail_count: self.fail_count,
            locked_until: self.locked_until,
            lockout_count: self.lockout_count,
        }
    }
}

/// The state a host starts in.
pub open spec fn fresh_auth(
    host_key: Seq<u8>,
    devices: Map<Seq<char>, DeviceModel>,
) -> AuthModel {
    AuthModel {
        host_key,
        devices,
        active: None,
        fail_count: 0,
        locked_until: 0,
        lockout_count: 0,
    }
}

impl PairingAuth {
    /// The failure budget is never used up, and every lockout has moved the end
    /// of the cooldown on.
    pub closed spec fn wf(&self) -> bool {
        &&& self.devices.wf()
        &&& self.fail_count < LOCKOUT_THRESHOLD
        &&& LOCKOUT_SECS * self.lockout_count <= self.locked_until
    }

    /// A host's identity and its allowlist; nothing armed, nothing failed.
    pub fn new(host_key: [u8; 32], devices: StrMap<PairedDevice>) -> (r: Self)
        requires
            devices.wf(),
        ensures
            r.wf(),
            r@ == fresh_auth(host_key@, devices_view(devices@)),
            r@ == (AuthModel {
                host_key: host_key@,
                devices: devices_view(devices@),
                active: None,
                fail_count: 0,
                locked_until: 0,
                lockout_count: 0,
            }),
    {
        PairingAuth {
            host_key,
            devices,
            active: None,
            fail_count: 0,
            locked_until: 0,
            lockout_count: 0,
        }
    }

    /// True if no device is paired yet (used for the downgrade decision).
    pub fn is_empty(&self) -> (r: bool)
        requires
            self.wf(),
        ensures
            r == (self@.devices == Map::<Seq<char>, DeviceModel>::empty()),
    {
        let r: bool = self.devices.is_empty();
        proof {
            if r {
                assert(self@.devices =~= Map::empty());
            } else {
                assert(self@.devices.dom() =~= self.devices@.dom());
                assert(self.devices@ =~= Map::empty() || self.devices@.dom() != Set::<
                    Seq<char>,
                >::empty());
            }
        }
        r
    }

    pub fn paired_devices(&self) -> (r: &StrMap<PairedDevice>)
        requires
            self.wf(),
        ensures
            r.wf(),
            devices_view(r@) == self@.devices,
    {
        &self.devices
    }

    /// Arm a fresh one-time pairing code (operator action). Returns the code to
    /// display (canonical, no grouping); use [`group_code`] for presentation.
    /// Nothing is armed where the system's random source fails.
    pub fn arm(&mut self, now_unix: u64) -> (r: Option<String>)
        requires
            old(self).wf(),
            now_unix + CODE_TTL_SECS <= u64::MAX,
        ensures
            final(self).wf(),
            match r {
                Some(code) => {
                    &&& exists|bits: u64| code@ == #[trigger] code_text(bits)
                    &&& final(self)@ == armed(old(self)@, code@, now_unix)
                },
                None => final(self)@ == old(self)@,
            },
    {
        match random_bytes(8) {
            Some(bytes) => Some(self.arm_with(read_u64(bytes.as_slice(), 0), now_unix)),
            None => None,
        }
    }

    /// Arm the code that stands for the low 40 bits of `bits`.
    pub fn arm_with(&mut self, bits: u64, now_unix: u64) -> (code: String)
        requires
            old(self).wf(),
            now_unix + CODE_TTL_SECS <= u64::MAX,
        ensures
            final(self).wf(),
            code@ == code_text(bits),
            final(self)@ == armed(old(self)@, code@, now_unix),
    {
        let code: String = code_from_bits(bits);
        self.active = Some(ActiveCode { code: code.clone(), expires_at: now_unix + CODE_TTL_SECS });
        assert(self@ =~= armed(old(self)@, code@, now_unix));
        code
    }

    /// Verify a pairing attempt. Consumes the active code regardless of outcome
    /// (consume-on-attempt). On success, mints a device token; the allowlist
    /// then holds the device.
    pub fn verify_pairing(
        &mut self,
        device_id: &str,
        name: &str,
        given: &[u8],
        channel_binding: &[u8; 32],
        now_unix: u64,
    ) -> (r: PairOutcome)
        requires
            old(self).wf(),
            may_trip(old(self)@, now_unix) ==> room_for_lockout(old(self)@, now_unix),
        ensures
            final(self).wf(),
            (final(self)@, r@) == attempt(
                old(self)@,
                device_id@,
                name@,
                given@,
                channel_binding@,
                now_unix,
            ),
    {
        let proof_ok: bool = match &self.active {
            Some(active) => {
                let expected: Vec<u8> = pairing_proof(active.code.as_str(), channel_binding);
                ct_eq(expected.as_slice(), given)
            },
            None => false,
        };
        let token: String = self.token_of(device_id, now_unix);
        self.conclude(device_id, name, proof_ok, token, now_unix)
    }

    /// Settle a pairing attempt whose proof has been checked.
    pub fn conclude(
        &mut self,
        device_id: &str,
        name: &str,
        proof_ok: bool,
        token: String,
        now_unix: u64,
    ) -> (r: PairOutcome)
        requires
            old(self).wf(),
            may_trip(old(self)@, now_unix) && !proof_ok && valid_device_id(device_id@)
                ==> room_for_lockout(old(self)@, now_unix),
        ensures
            final(self).wf(),
            (final(self)@, r@) == concluded(
                old(self)@,
                device_id@,
                name@,
                proof_ok,
                token@,
                now_unix,
            ),
    {
        proof {
            lemma2_to64();
            lemma_cooldown_bound(self.lockout_count);
        }
        if now_unix < self.locked_until {
            self.active = None;
            assert(self@ =~= (AuthModel { active: None, ..old(self)@ }));
            return PairOutcome::LockedOut;
        }
        let active: ActiveCode = match self.active.take() {
            Some(active) => active,
            None => {
                return PairOutcome::NoActiveCode;
            },
        };
        let ghost spent = AuthModel { active: None, ..old(self)@ };
        assert(self@ =~= spent);
        if now_unix >= active.expires_at {
            return PairOutcome::NoActiveCode;
        }
        if device_id.as_bytes().len() == 0 || device_id.as_bytes().len() > MAX_DEVICE_ID_LEN {
            return PairOutcome::Rejected;
        }
        if !proof_ok {
            self.fail_count = self.fail_count + 1;
            if self.fail_count >= LOCKOUT_THRESHOLD {
                // Escalating cooldown: only a successful pairing clears it.
                let shift: u32 = if self.lockout_count < MAX_DOUBLINGS {
                    self.lockout_count
                } else {
                    MAX_DOUBLINGS
                };
                proof {
                    vstd::bits::lemma_u64_shl_is_mul(1, shift as u64);
                }
                self.locked_until = now_unix + LOCKOUT_SECS * (1u64 << shift);
                self.lockout_count = self.lockout_count + 1;
                self.fail_count = 0;
            }
            assert(self@ =~= after_failure(spent, now_unix));
            return PairOutcome::Rejected;
        }
        self.fail_count = 0;
        self.lockout_count = 0;
        self.admit_device(device_id, name, now_unix);
        PairOutcome::Paired { token }
    }

    fn admit_device(&mut self, device_id: &str, name: &str, now_unix: u64)
        requires
            old(self).wf(),
        ensures
            final(self).wf(),
            final(self)@ == (AuthModel {
                devices: old(self)@.devices.insert(
                    device_id@,
                    DeviceModel { name: name@, paired_at: now_unix },
                ),
                ..old(self)@
            }),
    {
        let device: PairedDevice = PairedDevice { name: name.to_owned(), paired_at: now_unix };
        let ghost before = self.devices@;
        let _ = self.devices.insert(device_id.to_owned(), device);
        assert(devices_view(before.insert(device_id@, device)) =~= devices_view(before).insert(
            device_id@,
            device@,
        ));
    }

    fn token_of(&self, device_id: &str, paired_at: u64) -> (token: String)
        ensures
            token@ == token_for(self@.host_key, device_id@, paired_at),
    {
        let mut subject: String = device_id.to_owned();
        subject.push(':');
        push_numeral(&mut subject, paired_at, 10);
        let mac: Vec<u8> = hmac_sha256_tag(self.host_key.as_slice(), subject.as_str().as_bytes());
        hex(mac.as_slice())
    }

    /// Verify a presented token: the HMAC must match AND the device must still
    /// be in the allowlist (so removal revokes).
    pub fn verify_token(&self, device_id: &str, token: &str) -> (r: bool)
        requires
            self.wf(),
        ensures
            r == token_ok(self@, device_id@, token@),
    {
        match self.devices.get(device_id) {
            None => false,
            Some(dev) => {
                let expected: String = self.token_of(device_id, dev.paired_at);
                let r: bool = ct_eq(expected.as_str().as_bytes(), token.as_bytes());
                proof {
                    if r {
                        crate::text::lemma_encoding_injective(expected@, token@);
                    }
                }
                r
            },
        }
    }

    /// Take a device off the allowlist; whether it was on it.
    pub fn revoke(&mut self, device_id: &str) -> (removed: bool)
        requires
            old(self).wf(),
        ensures
            final(self).wf(),
            removed == old(self)@.devices.dom().contains(device_id@),
            final(self)@ == revoked(old(self)@, device_id@),
    {
        let ghost before = self.devices@;
        let removed: bool = self.devices.remove(device_id).is_some();
        assert(devices_view(before.remove(device_id@)) =~= devices_view(before).remove(
            device_id@,
        ));
        assert(self@ =~= revoked(old(self)@, device_id@));
        removed
    }
}

proof fn lemma_cooldown_bound(lockouts: u32)
    ensures
        LOCKOUT_SECS <= cooldown(lockouts) <= MAX_COOLDOWN_SECS,
{
    lemma2_to64();
}

/// The characters of a fingerprint that count.
pub open spec fn stripped(fp: Seq<char>) -> Seq<char>
    decreases fp.len(),
{
    if fp.len() == 0 {
        Seq::empty()
    } else {
        let front = stripped(fp.drop_last());
        if white_space(fp.last()) || fp.last() == ':' {
            front
        } else {
            front.push(fp.last())
        }
    }
}

/// A fingerprint as it is hashed: in upper case, without colons and space.
pub open spec fn normalized(fp: Seq<char>) -> Seq<char> {
    uppercase(stripped(fp))
}

/// The bytes that are hashed for two texts: the lesser one first.
pub open spec fn binding_input(a: Seq<char>, b: Seq<char>) -> Seq<u8> {
    let x = encode_utf8(a);
    let y = encode_utf8(b);
    if bytes_le(x, y) {
        x + seq![124u8] + y
    } else {
        y + seq![124u8] + x
    }
}

/// The channel binding of two fingerprints.
pub open spec fn binding_for(fp_a: Seq<char>, fp_b: Seq<char>) -> Seq<u8> {
    sha256(binding_input(normalized(fp_a), normalized(fp_b)))
}

/// Channel binding: a hash of the two DTLS fingerprints, order-independent, so
/// both peers derive the same value from an honest connection and different
/// values under a fingerprint-swapping relay. Fingerprints are normalized
/// (uppercase, colons stripped) before hashing.
pub fn channel_binding(fp_a: &str, fp_b: &str) -> (r: [u8; 32])
    ensures
        r@ == binding_for(fp_a@, fp_b@),
{
    let a: String = normalize_fp(fp_a);
    let b: String = normalize_fp(fp_b);
    let input: Vec<u8> = binding_bytes(a.as_str(), b.as_str());
    sha256_digest(input.as_slice())
}

/// The bytes to hash for two normalized fingerprints: the lesser one, a bar,
/// the other one.
pub fn binding_bytes(a: &str, b: &str) -> (input: Vec<u8>)
    ensures
        input@ == binding_input(a@, b@),
{
    let mut input: Vec<u8> = Vec::new();
    if text_le(a, b) {
        input.extend_from_slice(a.as_bytes());
        input.push(124);
        input.extend_from_slice(b.as_bytes());
    } else {
        input.extend_from_slice(b.as_bytes());
        input.push(124);
        input.extend_from_slice(a.as_bytes());
    }
    assert(input@ =~= binding_input(a@, b@));
    input
}

fn normalize_fp(fp: &str) -> (r: String)
    ensures
        r@ == normalized(fp@),
{
    let mut kept: String = String::new();
    let n: usize = fp.unicode_len();
    let mut i: usize = 0;
    while i < n
        invariant
            i <= n == fp@.len(),
            kept@ == stripped(fp@.take(i as int)),
        decreases n - i,
    {
        let c: char = fp.get_char(i);
        assert(fp@.take(i as int + 1).drop_last() =~= fp@.take(i as int));
        if !c.is_whitespace() && c != ':' {
            kept.push(c);
        }
        i += 1;
    }
    assert(fp@.take(n as int) =~= fp@);
    kept.as_str().to_uppercase()
}

/// The proof a controller computes: `HMAC(code, channel_binding)`.
pub fn pairing_proof(code: &str, channel_binding: &[u8; 32]) -> (r: Vec<u8>)
    ensures
        r@ == proof_for(code@, channel_binding@),
{
    hmac_sha256_tag(code.as_bytes(), channel_binding.as_slice())
}

/// A code in two halves.
pub open spec fn grouped(code: Seq<char>) -> Seq<char> {
    let b = encode_utf8(code);
    if b.len() == 8 {
        vstd::utf8::decode_utf8(b.subrange(0, 4)).push('-') + vstd::utf8::decode_utf8(
            b.subrange(4, 8),
        )
    } else {
        code
    }
}

/// Group an 8-char code as `XXXX-XXXX` for display. A text of eight bytes must
/// have a character boundary in the middle.
pub fn group_code(code: &str) -> (r: String)
    requires
        encode_utf8(code@).len() == 8 ==> is_char_boundary(encode_utf8(code@), 4),
    ensures
        r@ == grouped(code@),
{
    if code.as_bytes().len() == 8 {
        let (first, second) = code.split_at(4);
        let mut r: String = first.to_owned();
        r.push('-');
        r.append(second);
        proof {
            broadcast use vstd::utf8::encode_utf8_decode_utf8;

            let b = encode_utf8(code@);
            assert(encode_utf8(first@) == b.subrange(0, 4));
            assert(encode_utf8(second@) == b.subrange(4, 8));
            assert(r@ =~= grouped(code@));
        }
        r
    } else {
        code.to_owned()
    }
}

fn code_from_bits(bits: u64) -> (s: String)
    ensures
        s@ == code_text(bits),
{
    proof {
        reveal_strlit("0123456789ABCDEFGHJKMNPQRSTVWXYZ");
    }
    let v: u64 = bits & 0xFF_FFFF_FFFF;
    let mut s: String = String::new();
    let mut i: u64 = 0;
    while i < 8
        invariant
            i <= 8,
            v == bits & 0xFF_FFFF_FFFF,
            CROCKFORD@.len() == 32,
            s@ == code_text(bits).take(i as int),
        decreases 8 - i,
    {
        let shift: u64 = (7 - i) * 5;
        let idx: u64 = (v >> shift) & 0x1F;
        assert(((bits & 0xFF_FFFF_FFFF) >> shift) & 0x1F == (bits >> shift) % 32) by (bit_vector)
            requires
                shift <= 35,
        ;
        s.push(CROCKFORD.get_char(idx as usize));
        assert(s@ =~= code_text(bits).take(i as int + 1));
        i += 1;
    }
    assert(s@ =~= code_text(bits));
    s
}

/// Why a stored host key is refused.
#[derive(Debug, PartialEq, Eq)]
pub enum HostKeyError {
    /// Others than the owner can reach the file.
    Exposed { mode: u32 },
    /// The file does not hold 32 bytes.
    Corrupt { len: usize },
}

impl HostKeyError {
    /// The message for an operator, about the file at `path`.
    pub open spec fn text(self, path: Seq<char>) -> Seq<char> {
        match self {
            HostKeyError::Exposed { mode } => path + " is group/world-accessible (mode "@ + numeral(
                mode as nat,
                8,
            ) + "); refusing to use it"@,
            HostKeyError::Corrupt { len } => path + " is corrupt (expected 32 bytes, got "@
                + decimal(len as nat) + ")"@,
        }
    }

    pub fn message(&self, path: &str) -> (r: String)
        ensures
            r@ == self.text(path@),
    {
        let mut r: String = path.to_owned();
        match self {
            HostKeyError::Exposed { mode } => {
                r.append(" is group/world-accessible (mode ");
                push_numeral(&mut r, *mode as u64, 8);
                r.append("); refusing to use it");
            },
            HostKeyError::Corrupt { len } => {
                r.append(" is corrupt (expected 32 bytes, got ");
                push_numeral(&mut r, *len as u64, 10);
                r.append(")");
            },
        }
        r
    }
}

/// What the permission bits of a stored host key come to.
pub open spec fn key_mode_checked(mode: u32) -> Result<(), HostKeyError> {
    if mode % 64 == 0 {
        Ok(())
    } else {
        Err(HostKeyError::Exposed { mode: mode % 512 })
    }
}

/// What the bytes of a stored host key come to.
pub open spec fn host_key_read(bytes: Seq<u8>) -> Result<Seq<u8>, HostKeyError> {
    if bytes.len() == 32 {
        Ok(bytes)
    } else {
        Err(HostKeyError::Corrupt { len: bytes.len() as usize })
    }
}

/// Check the permission bits of a stored host key: a key that group or others
/// can reach is refused.
pub fn check_key_mode(mode: u32) -> (r: Result<(), HostKeyError>)
    ensures
        r == key_mode_checked(mode),
        match r {
            Ok(()) => mode % 64 == 0,
            Err(e) => mode % 64 != 0 && e == (HostKeyError::Exposed { mode: mode % 512 }),
        },
{
    assert((mode & 0o777) & 0o077 == mode % 64) by (bit_vector);
    assert(mode & 0o777 == mode % 512) by (bit_vector);
    let bits: u32 = mode & 0o777;
    if bits & 0o077 != 0 {
        Err(HostKeyError::Exposed { mode: bits })
    } else {
        Ok(())
    }
}

/// Read a stored host key: exactly 32 bytes.
pub fn parse_host_key(bytes: &[u8]) -> (r: Result<[u8; 32], HostKeyError>)
    ensures
        match r {
            Ok(key) => host_key_read(bytes@) == Ok::<Seq<u8>, HostKeyError>(key@),
            Err(e) => host_key_read(bytes@) == Err::<Seq<u8>, HostKeyError>(e),
        },
        match r {
            Ok(key) => key@ == bytes@,
            Err(e) => bytes@.len() != 32 && e == (HostKeyError::Corrupt {
                len: bytes@.len() as usize,
            }),
        },
{
    if bytes.len() != 32 {
        return Err(HostKeyError::Corrupt { len: bytes.len() });
    }
    let mut key: [u8; 32] = [0;32];
    let mut i: usize = 0;
    while i < 32
        invariant
            i <= 32,
            bytes@.len() == 32,
            forall|j: int| 0 <= j < i ==> key@[j] == bytes@[j],
        decreases 32 - i,
    {
        key[i] = bytes[i];
        i += 1;
    }
    assert(key@ =~= bytes@);
    Ok(key)
}

/// A fresh key of 32 bytes, for a host that has none stored. `None` where the
/// system's random source fails; nothing is said of the bytes.
pub fn fresh_key() -> (r: Option<[u8; 32]>)
    ensures
        r matches Some(key) ==> key@.len() == 32,
{
    match random_bytes(32) {
        Some(bytes) => match parse_host_key(bytes.as_slice()) {
            Ok(key) => Some(key),
            Err(_) => None,
        },
        None => None,
    }
}

} // verus!
