//! The rules of pairing in numbers and formulas.

use vstd::arithmetic::power2::pow2;
use vstd::prelude::*;
use vstd::utf8::{decode_utf8, encode_utf8, is_ascii_chars, is_ascii_chars_encode_utf8};

use super::{
    armed, attempt, binding_for, code_text, concluded, fresh_auth, grouped, host_key_read, key_mode_checked,
    normalized, proof_for, revoked, stripped, token_for, token_ok, AuthModel, CodeModel,
    DeviceModel, HostKeyError, OutcomeModel,
};
use crate::crypto::{hmac_sha256, sha256};
use crate::text::{ascii_upper, bytes_le, decimal, hex_text, numeral, white_space};

verus! {

/// What a pairing attempt comes to. In a cooldown it is locked out; without a code, or
/// with one that has expired, there is nothing to try; either way the code is gone. A
/// live code pairs a device whose id has 1 to 128 bytes and whose proof is the
/// HMAC-SHA256 tag of the channel binding under the code, and no other.
pub proof fn law_attempts_are_settled(
    a: AuthModel,
    device_id: Seq<char>,
    name: Seq<char>,
    given: Seq<u8>,
    binding: Seq<u8>,
    now: u64,
)
    ensures
        ({
            let (after, outcome) = attempt(a, device_id, name, given, binding, now);
            let live = a.locked_until <= now && a.active is Some && now < a.active->0.expires_at;
            let id_ok = 1 <= encode_utf8(device_id).len() <= 128;
            let right = given == hmac_sha256(encode_utf8(a.active->0.code), binding);
            &&& after.active is None
            &&& after.host_key == a.host_key
            &&& now < a.locked_until ==> outcome == OutcomeModel::LockedOut
            &&& now >= a.locked_until && !live ==> outcome == OutcomeModel::NoActiveCode
            &&& live && !(id_ok && right) ==> outcome == OutcomeModel::Rejected
            &&& live && id_ok && right ==> outcome is Paired
            &&& !(live && id_ok) ==> after == AuthModel { active: None, ..a }
        }),
{
}

/// A pairing records the device under its name with the time, hands out the token of
/// that device and time, and clears the counters; the other devices stay.
pub proof fn law_pairing_records_the_device(
    a: AuthModel,
    device_id: Seq<char>,
    name: Seq<char>,
    given: Seq<u8>,
    binding: Seq<u8>,
    now: u64,
    other: Seq<char>,
)
    requires
        attempt(a, device_id, name, given, binding, now).1 is Paired,
    ensures
        ({
            let (after, outcome) = attempt(a, device_id, name, given, binding, now);
            &&& after.devices.dom().contains(device_id)
            &&& after.devices[device_id].name == name
            &&& after.devices[device_id].paired_at == now
            &&& other != device_id ==> after.devices.dom().contains(other)
                == a.devices.dom().contains(other) && after.devices[other] == a.devices[other]
            &&& outcome == (OutcomeModel::Paired {
                token: hex_text(
                    hmac_sha256(
                        a.host_key,
                        encode_utf8(device_id + seq![':'] + decimal(now as nat)),
                    ),
                ),
            })
            &&& after.fail_count == 0 && after.lockout_count == 0
            &&& after.locked_until == a.locked_until
        }),
{
    assert(device_id.push(':') + decimal(now as nat) =~= device_id + seq![':'] + decimal(
        now as nat,
    ));
}

/// A wrong proof counts; the third one locks pairing for a minute, doubled for each
/// lockout since the last success up to ten times, and starts the count anew.
pub proof fn law_wrong_proofs_lock(
    a: AuthModel,
    device_id: Seq<char>,
    name: Seq<char>,
    given: Seq<u8>,
    binding: Seq<u8>,
    now: u64,
)
    requires
        a.active is Some,
        a.locked_until <= now < a.active->0.expires_at,
        1 <= encode_utf8(device_id).len() <= 128,
        given != hmac_sha256(encode_utf8(a.active->0.code), binding),
        a.fail_count < 3,
        a.lockout_count < u32::MAX,
        now + 61_440 <= u64::MAX,
    ensures
        ({
            let after = attempt(a, device_id, name, given, binding, now).0;
            &&& after.devices == a.devices
            &&& a.fail_count < 2 ==> after.fail_count == a.fail_count + 1 && after.locked_until
                == a.locked_until && after.lockout_count == a.lockout_count
            &&& a.fail_count == 2 ==> {
                &&& after.fail_count == 0
                &&& after.lockout_count == a.lockout_count + 1
                &&& after.locked_until - now == 60 * pow2(
                    if a.lockout_count < 10 {
                        a.lockout_count as nat
                    } else {
                        10
                    },
                )
                &&& now + 60 <= after.locked_until <= now + 61_440
            }
        }),
{
    vstd::arithmetic::power2::lemma2_to64();
}

/// An armed code is good for five minutes, for its own text; arming touches nothing
/// else.
pub proof fn law_armed_for_five_minutes(a: AuthModel, code: Seq<char>, now: u64)
    requires
        now + 300 <= u64::MAX,
    ensures
        armed(a, code, now) == (AuthModel {
            host_key: a.host_key,
            devices: a.devices,
            active: Some(CodeModel { code, expires_at: (now + 300) as u64 }),
            fail_count: a.fail_count,
            locked_until: a.locked_until,
            lockout_count: a.lockout_count,
        }),
        armed(a, code, now).active->0.expires_at - now == 300,
{
}

/// The proof, the token and who may use it, as formulas.
pub proof fn law_proofs_and_tokens(
    a: AuthModel,
    code: Seq<char>,
    binding: Seq<u8>,
    host_key: Seq<u8>,
    device_id: Seq<char>,
    at: u64,
    token: Seq<char>,
)
    ensures
        proof_for(code, binding) == hmac_sha256(encode_utf8(code), binding),
        token_for(host_key, device_id, at) == hex_text(
            hmac_sha256(host_key, encode_utf8(device_id + seq![':'] + decimal(at as nat))),
        ),
        token_ok(a, device_id, token) <==> a.devices.dom().contains(device_id) && token == hex_text(
            hmac_sha256(
                a.host_key,
                encode_utf8(
                    device_id + seq![':'] + decimal(a.devices[device_id].paired_at as nat),
                ),
            ),
        ),
{
    assert(device_id.push(':') + decimal(at as nat) =~= device_id + seq![':'] + decimal(at as nat));
    let then = a.devices[device_id].paired_at as nat;
    assert(device_id.push(':') + decimal(then) =~= device_id + seq![':'] + decimal(then));
}

/// Revoking takes one device off the allowlist and touches nothing else.
pub proof fn law_revoking_removes_one(a: AuthModel, device_id: Seq<char>, other: Seq<char>)
    ensures
        !revoked(a, device_id).devices.dom().contains(device_id),
        other != device_id ==> revoked(a, device_id).devices.dom().contains(other)
            == a.devices.dom().contains(other) && revoked(a, device_id).devices[other]
            == a.devices[other],
        revoked(a, device_id).host_key == a.host_key,
        revoked(a, device_id).active == a.active,
        revoked(a, device_id).fail_count == a.fail_count,
        revoked(a, device_id).locked_until == a.locked_until,
        revoked(a, device_id).lockout_count == a.lockout_count,
{
}

/// A code spells the low 40 bits of its number in base 32, the highest digit first, in
/// the ten digits and the letters without I, L, O and U.
pub proof fn law_codes_spell_their_bits(bits: u64)
    ensures
        ({
            let digits = "0123456789ABCDEFGHJKMNPQRSTVWXYZ"@;
            let code = code_text(bits);
            &&& code.len() == 8
            &&& digits.len() == 32
            &&& code[0] == digits[bits as int / 34359738368 % 32]
            &&& code[1] == digits[bits as int / 1073741824 % 32]
            &&& code[2] == digits[bits as int / 33554432 % 32]
            &&& code[3] == digits[bits as int / 1048576 % 32]
            &&& code[4] == digits[bits as int / 32768 % 32]
            &&& code[5] == digits[bits as int / 1024 % 32]
            &&& code[6] == digits[bits as int / 32 % 32]
            &&& code[7] == digits[bits as int % 32]
        }),
{
    reveal_strlit("0123456789ABCDEFGHJKMNPQRSTVWXYZ");
    assert(bits >> 35u64 == bits / 34359738368 && bits >> 30u64 == bits / 1073741824 && bits
        >> 25u64 == bits / 33554432 && bits >> 20u64 == bits / 1048576 && bits >> 15u64 == bits
        / 32768 && bits >> 10u64 == bits / 1024 && bits >> 5u64 == bits / 32 && bits >> 0u64
        == bits) by (bit_vector);
}

/// A code of eight ASCII characters is shown as its first four, a dash and its last
/// four; any other ASCII text is shown as it is.
pub proof fn law_codes_are_shown_in_halves(code: Seq<char>)
    requires
        is_ascii_chars(code),
    ensures
        code.len() == 8 ==> grouped(code) == seq![
            code[0], code[1], code[2], code[3], '-', code[4], code[5], code[6], code[7],
        ],
        code.len() != 8 ==> grouped(code) == code,
{
    broadcast use vstd::utf8::encode_utf8_decode_utf8;

    is_ascii_chars_encode_utf8(code);
    if code.len() == 8 {
        let b = encode_utf8(code);
        let first = code.take(4);
        let second = code.skip(4);
        is_ascii_chars_encode_utf8(first);
        is_ascii_chars_encode_utf8(second);
        assert(encode_utf8(first) =~= b.subrange(0, 4));
        assert(encode_utf8(second) =~= b.subrange(4, 8));
        assert(decode_utf8(b.subrange(0, 4)) == first);
        assert(decode_utf8(b.subrange(4, 8)) == second);
        assert(grouped(code) =~= seq![
            code[0], code[1], code[2], code[3], '-', code[4], code[5], code[6], code[7],
        ]);
    }
}

/// Stripping a fingerprint drops its colons and its white space, and keeps every other
/// character in its place.
pub proof fn law_stripping(a: Seq<char>, b: Seq<char>, c: char)
    ensures
        stripped(Seq::empty()) == Seq::<char>::empty(),
        stripped(seq![c]) == if c == ':' || white_space(c) {
            Seq::empty()
        } else {
            seq![c]
        },
        stripped(a + b) == stripped(a) + stripped(b),
    decreases b.len(),
{
    let one = seq![c];
    assert(one.drop_last() =~= Seq::<char>::empty());
    assert(stripped(one.drop_last()) =~= Seq::<char>::empty());
    assert(Seq::<char>::empty().push(c) =~= seq![c]);
    if b.len() == 0 {
        assert(a + b =~= a);
        assert(stripped(a) + stripped(b) =~= stripped(a));
    } else {
        law_stripping(a, b.drop_last(), c);
        assert((a + b).drop_last() =~= a + b.drop_last());
        assert((a + b).last() == b.last());
        assert(stripped(a + b) =~= stripped(a) + stripped(b));
    }
}

/// The binding of two fingerprints in ASCII is the SHA-256 digest of the two in upper
/// case without separators, the one that sorts first before the other, a bar between.
pub proof fn law_bindings_are_digests(a: Seq<char>, b: Seq<char>)
    requires
        is_ascii_chars(stripped(a)),
        is_ascii_chars(stripped(b)),
    ensures
        ({
            let x = encode_utf8(stripped(a).map_values(|c: char| ascii_upper(c)));
            let y = encode_utf8(stripped(b).map_values(|c: char| ascii_upper(c)));
            &&& bytes_le(x, y) ==> binding_for(a, b) == sha256(x + seq!['|' as u8] + y)
            &&& bytes_le(y, x) ==> binding_for(a, b) == sha256(y + seq!['|' as u8] + x)
        }),
{
    let x = encode_utf8(normalized(a));
    let y = encode_utf8(normalized(b));
    crate::text::lemma_bytes_le_total(x, y);
    assert('|' as u8 == 124u8);
}

/// A host key file may be used only where neither group nor others can reach it; the
/// refusal shows its permission bits.
pub proof fn law_key_files_are_private(mode: u32)
    ensures
        key_mode_checked(mode) is Ok <==> mode & 0o070 == 0 && mode & 0o007 == 0,
        key_mode_checked(mode) matches Err(e) ==> e == (HostKeyError::Exposed {
            mode: mode & 0o777,
        }),
{
    assert(mode & 0o777 == mode % 512) by (bit_vector);
    assert((mode & 0o070 == 0 && mode & 0o007 == 0) <==> mode % 64 == 0) by (bit_vector);
}

/// A stored host key is the file's 32 bytes in their order; a file of another size is
/// refused with that size.
pub proof fn law_key_files_hold_the_key(bytes: Seq<u8>)
    ensures
        bytes.len() == 32 ==> host_key_read(bytes) == Ok::<Seq<u8>, HostKeyError>(bytes),
        bytes.len() != 32 ==> host_key_read(bytes) == Err::<Seq<u8>, HostKeyError>(
            HostKeyError::Corrupt { len: bytes.len() as usize },
        ),
{
}

/// A host starts with its key and its allowlist, no code, and nothing held against
/// anyone: at any time a code can be armed and tried.
pub proof fn law_hosts_start_unlocked(
    host_key: Seq<u8>,
    devices: Map<Seq<char>, DeviceModel>,
    now: u64,
)
    ensures
        fresh_auth(host_key, devices).host_key == host_key,
        fresh_auth(host_key, devices).devices == devices,
        fresh_auth(host_key, devices).active is None,
        fresh_auth(host_key, devices).fail_count == 0,
        fresh_auth(host_key, devices).lockout_count == 0,
        fresh_auth(host_key, devices).locked_until <= now,
{
}

/// What is said of a key file that is refused.
pub proof fn law_key_refusals_in_words(path: Seq<char>, mode: u32, len: usize)
    ensures
        (HostKeyError::Exposed { mode }).text(path) == path + " is group/world-accessible (mode "@
            + numeral(mode as nat, 8) + "); refusing to use it"@,
        (HostKeyError::Corrupt { len }).text(path) == path
            + " is corrupt (expected 32 bytes, got "@ + decimal(len as nat) + ")"@,
{
}

/// On the LAN both ends stand for one fixed text: the binding is the digest of that text
/// in upper case, twice, a bar between.
pub proof fn law_lan_binding()
    ensures
        binding_for("tether-ws"@, "tether-ws"@) == sha256(
            encode_utf8("TETHER-WS"@) + seq!['|' as u8] + encode_utf8("TETHER-WS"@),
        ),
{
    reveal_strlit("tether-ws");
    reveal_strlit("TETHER-WS");
    let s = "tether-ws"@;
    assert(s =~= seq!['t', 'e', 't', 'h', 'e', 'r', '-', 'w', 's']);
    super::laws::lemma_clean_stays(s);
    assert(is_ascii_chars(s));
    assert(s.map_values(|c: char| ascii_upper(c)) =~= "TETHER-WS"@);
    law_bindings_are_digests(s, s);
    crate::text::lemma_bytes_le_total(encode_utf8("TETHER-WS"@), encode_utf8("TETHER-WS"@));
}

/// Settling an attempt whose proof has been checked: a live code and a valid id pair with
/// the token handed in where the proof was right, and are rejected where it was not.
pub proof fn law_checked_attempts_are_settled(
    a: AuthModel,
    device_id: Seq<char>,
    name: Seq<char>,
    proof_ok: bool,
    token: Seq<char>,
    now: u64,
)
    ensures
        ({
            let (after, outcome) = concluded(a, device_id, name, proof_ok, token, now);
            let live = a.locked_until <= now && a.active is Some && now < a.active->0.expires_at;
            let id_ok = 1 <= encode_utf8(device_id).len() <= 128;
            &&& live && id_ok && proof_ok ==> {
                &&& outcome == (OutcomeModel::Paired { token })
                &&& after.devices == a.devices.insert(
                    device_id,
                    DeviceModel { name, paired_at: now },
                )
            }
            &&& !(live && id_ok && proof_ok) ==> !(outcome is Paired) && after.devices == a.devices
            &&& live && !(id_ok && proof_ok) ==> outcome == OutcomeModel::Rejected
            &&& now < a.locked_until ==> outcome == OutcomeModel::LockedOut
            &&& now >= a.locked_until && !live ==> outcome == OutcomeModel::NoActiveCode
            &&& after.active is None
        }),
{
}

} // verus!
