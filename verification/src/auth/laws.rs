//! What pairing promises over more than one call.

use vstd::arithmetic::power2::lemma2_to64;
use vstd::prelude::*;
use vstd::utf8::{encode_utf8, is_ascii_chars};

use super::{
    after_failure, armed, attempt, binding_for, binding_input, code_text, cooldown, normalized,
    proof_for, revoked, stripped, token_for, token_ok, valid_device_id, AuthModel, OutcomeModel,
    CODE_TTL_SECS, CROCKFORD, LOCKOUT_SECS, LOCKOUT_THRESHOLD, MAX_DOUBLINGS,
};
use crate::text::{
    ascii_upper, decimal, lemma_bytes_le_total, lemma_decimal_digits, lemma_decimal_injective,
    uppercase, white_space,
};

verus! {

/// Whoever knows an armed code that has not expired and answers on the host's
/// own channel is paired, outside a cooldown, and gets a token.
pub proof fn law_right_proof_pairs(
    a: AuthModel,
    code: Seq<char>,
    armed_at: u64,
    device_id: Seq<char>,
    name: Seq<char>,
    binding: Seq<u8>,
    now: u64,
)
    requires
        armed_at + CODE_TTL_SECS <= u64::MAX,
        a.locked_until <= now < armed_at + CODE_TTL_SECS,
        valid_device_id(device_id),
    ensures
        attempt(
            armed(a, code, armed_at),
            device_id,
            name,
            proof_for(code, binding),
            binding,
            now,
        ).1 == (OutcomeModel::Paired { token: token_for(a.host_key, device_id, now) }),
{
}

/// What comes of an attempt at a code that nobody has tried, outside a cooldown:
/// the code is there until it expires, and until then the right proof of a
/// device with a valid id pairs, and nothing else does.
pub proof fn law_outcome_of_a_fresh_code(
    a: AuthModel,
    code: Seq<char>,
    armed_at: u64,
    device_id: Seq<char>,
    name: Seq<char>,
    given: Seq<u8>,
    binding: Seq<u8>,
    now: u64,
)
    requires
        armed_at + CODE_TTL_SECS <= u64::MAX,
        a.locked_until <= now,
    ensures
        attempt(armed(a, code, armed_at), device_id, name, given, binding, now).1 == if now
            >= armed_at + CODE_TTL_SECS {
            OutcomeModel::NoActiveCode
        } else if valid_device_id(device_id) && given == proof_for(code, binding) {
            OutcomeModel::Paired { token: token_for(a.host_key, device_id, now) }
        } else {
            OutcomeModel::Rejected
        },
{
}

/// A token that pairing issued lets its device in, and re-pairing lets in with
/// the new token.
pub proof fn law_issued_token_verifies(
    a: AuthModel,
    device_id: Seq<char>,
    name: Seq<char>,
    given: Seq<u8>,
    binding: Seq<u8>,
    now: u64,
)
    ensures
        attempt(a, device_id, name, given, binding, now).1 matches OutcomeModel::Paired { token }
            ==> token_ok(attempt(a, device_id, name, given, binding, now).0, device_id, token),
{
}

/// A proof made for another channel is rejected and pairs nothing, provided
/// that the two channels' proofs differ.
pub proof fn law_other_channel_is_rejected(
    a: AuthModel,
    device_id: Seq<char>,
    name: Seq<char>,
    theirs: Seq<u8>,
    ours: Seq<u8>,
    now: u64,
)
    requires
        a.active is Some,
        a.locked_until <= now < a.active->0.expires_at,
        proof_for(a.active->0.code, theirs) != proof_for(a.active->0.code, ours),
    ensures
        ({
            let (after, outcome) = attempt(
                a,
                device_id,
                name,
                proof_for(a.active->0.code, theirs),
                ours,
                now,
            );
            outcome == OutcomeModel::Rejected && after.devices == a.devices
        }),
{
}

/// Only a pairing adds to the allowlist, and only the device that paired;
/// nothing else an attempt does touches it.
pub proof fn law_only_pairing_adds(
    a: AuthModel,
    device_id: Seq<char>,
    name: Seq<char>,
    given: Seq<u8>,
    binding: Seq<u8>,
    now: u64,
    other: Seq<char>,
    token: Seq<char>,
)
    requires
        other != device_id || !(attempt(a, device_id, name, given, binding, now).1 is Paired),
    ensures
        token_ok(attempt(a, device_id, name, given, binding, now).0, other, token) == token_ok(
            a,
            other,
            token,
        ),
{
}

/// Revoking a device stops every token of it, and leaves the other devices'
/// tokens as they were.
pub proof fn law_revocation(
    a: AuthModel,
    device_id: Seq<char>,
    other: Seq<char>,
    token: Seq<char>,
)
    ensures
        !token_ok(revoked(a, device_id), device_id, token),
        other != device_id ==> token_ok(revoked(a, device_id), other, token) == token_ok(
            a,
            other,
            token,
        ),
{
}

/// An attempt consumes the code, whatever comes of it, so that a second attempt
/// finds none.
pub proof fn law_code_is_consumed(
    a: AuthModel,
    id1: Seq<char>,
    name1: Seq<char>,
    given1: Seq<u8>,
    binding1: Seq<u8>,
    now1: u64,
    id2: Seq<char>,
    name2: Seq<char>,
    given2: Seq<u8>,
    binding2: Seq<u8>,
    now2: u64,
)
    ensures
        ({
            let first = attempt(a, id1, name1, given1, binding1, now1).0;
            let second = attempt(first, id2, name2, given2, binding2, now2);
            &&& first.active is None
            &&& second.0 == first
            &&& second.1 == OutcomeModel::NoActiveCode || second.1 == OutcomeModel::LockedOut
        }),
{
}

/// During a cooldown every attempt is refused, even one with the right proof. It
/// consumes the code and changes nothing else.
pub proof fn law_cooldown_refuses_all(
    a: AuthModel,
    device_id: Seq<char>,
    name: Seq<char>,
    given: Seq<u8>,
    binding: Seq<u8>,
    now: u64,
)
    requires
        now < a.locked_until,
    ensures
        attempt(a, device_id, name, given, binding, now) == (
            AuthModel { active: None, ..a },
            OutcomeModel::LockedOut,
        ),
{
}

/// An expired code pairs nobody.
pub proof fn law_expired_code_pairs_nobody(
    a: AuthModel,
    code: Seq<char>,
    armed_at: u64,
    device_id: Seq<char>,
    name: Seq<char>,
    given: Seq<u8>,
    binding: Seq<u8>,
    now: u64,
)
    requires
        armed_at + CODE_TTL_SECS <= now,
        a.locked_until <= now,
    ensures
        attempt(armed(a, code, armed_at), device_id, name, given, binding, now)
            == (AuthModel { active: None, ..a }, OutcomeModel::NoActiveCode),
{
}

/// Arming a code clears neither the failures counted so far nor a cooldown, and
/// leaves the allowlist as it is: an attempt is locked out exactly when it would
/// have been without the new code. Only the newest code counts.
pub proof fn law_arming_keeps_the_budget(
    a: AuthModel,
    code: Seq<char>,
    armed_at: u64,
    earlier: Seq<char>,
    earlier_at: u64,
    device_id: Seq<char>,
    name: Seq<char>,
    given: Seq<u8>,
    binding: Seq<u8>,
    now: u64,
)
    ensures
        ({
            let b = armed(a, code, armed_at);
            &&& b.fail_count == a.fail_count
            &&& b.locked_until == a.locked_until
            &&& b.lockout_count == a.lockout_count
            &&& b.devices == a.devices
            &&& attempt(b, device_id, name, given, binding, now).1 == OutcomeModel::LockedOut
                <==> attempt(a, device_id, name, given, binding, now).1
                == OutcomeModel::LockedOut
            &&& armed(armed(a, earlier, earlier_at), code, armed_at) == b
        }),
{
}

/// The state after a number of wrong proofs at one time, a code armed before
/// each.
pub open spec fn grind(a: AuthModel, wrong: nat, now: u64) -> AuthModel
    decreases wrong,
{
    if wrong == 0 {
        a
    } else {
        after_failure(
            AuthModel { active: None, ..grind(a, (wrong - 1) as nat, now) },
            now,
        )
    }
}

/// A wrong proof given for an armed code is what `grind` counts.
pub proof fn law_wrong_proof_counts(
    a: AuthModel,
    code: Seq<char>,
    device_id: Seq<char>,
    name: Seq<char>,
    given: Seq<u8>,
    binding: Seq<u8>,
    now: u64,
)
    requires
        now + CODE_TTL_SECS <= u64::MAX,
        a.locked_until <= now,
        valid_device_id(device_id),
        given != proof_for(code, binding),
    ensures
        attempt(armed(a, code, now), device_id, name, given, binding, now) == (
            grind(a, 1, now),
            OutcomeModel::Rejected,
        ),
{
    reveal_with_fuel(grind, 2);
    assert(AuthModel { active: None, ..armed(a, code, now) } == AuthModel { active: None, ..a });
}

/// `LOCKOUT_THRESHOLD` wrong proofs in a row lock pairing for a cooldown,
/// however many codes are armed in between; the budget starts anew and the next
/// cooldown is escalated.
pub proof fn law_lockout_after_threshold(a: AuthModel, now: u64)
    requires
        a.fail_count == 0,
        a.lockout_count < u32::MAX,
        now + cooldown(a.lockout_count) <= u64::MAX,
    ensures
        ({
            let b = grind(a, LOCKOUT_THRESHOLD as nat, now);
            &&& b.locked_until == now + cooldown(a.lockout_count)
            &&& b.locked_until > now
            &&& b.lockout_count == a.lockout_count + 1
            &&& b.fail_count == 0
            &&& b.devices == a.devices
        }),
{
    reveal_with_fuel(grind, 4);
    law_cooldown_escalates(a.lockout_count);
    let one = grind(a, 1, now);
    let two = grind(a, 2, now);
    assert(one.fail_count == 1);
    assert(two.fail_count == 2);
}

/// What happens to a host's pairing over time.
pub enum PairingEvent {
    Arm { code: Seq<char>, now: u64 },
    Attempt {
        device_id: Seq<char>,
        name: Seq<char>,
        given: Seq<u8>,
        binding: Seq<u8>,
        now: u64,
    },
    Revoke { device_id: Seq<char> },
}

/// The state after an event.
pub open spec fn after_event(a: AuthModel, e: PairingEvent) -> AuthModel {
    match e {
        PairingEvent::Arm { code, now } => armed(a, code, now),
        PairingEvent::Attempt { device_id, name, given, binding, now } => attempt(
            a,
            device_id,
            name,
            given,
            binding,
            now,
        ).0,
        PairingEvent::Revoke { device_id } => revoked(a, device_id),
    }
}

/// The state after some events.
pub open spec fn after_events(a: AuthModel, events: Seq<PairingEvent>) -> AuthModel
    decreases events.len(),
{
    if events.len() == 0 {
        a
    } else {
        after_event(after_events(a, events.drop_last()), events.last())
    }
}

/// Whether an event is a wrong proof against a live code, outside a cooldown.
pub open spec fn is_wrong(a: AuthModel, e: PairingEvent) -> bool {
    e matches PairingEvent::Attempt { device_id, given, binding, now, .. } && a.active is Some
        && a.locked_until <= now < a.active->0.expires_at && valid_device_id(device_id) && given
        != proof_for(a.active->0.code, binding)
}

/// Whether an event pairs a device.
pub open spec fn is_pairing(a: AuthModel, e: PairingEvent) -> bool {
    e matches PairingEvent::Attempt { device_id, name, given, binding, now } && attempt(
        a,
        device_id,
        name,
        given,
        binding,
        now,
    ).1 is Paired
}

/// How many of some events are wrong proofs.
pub open spec fn wrong_among(a: AuthModel, events: Seq<PairingEvent>) -> nat
    decreases events.len(),
{
    if events.len() == 0 {
        0
    } else {
        let rest = events.drop_last();
        wrong_among(a, rest) + if is_wrong(after_events(a, rest), events.last()) {
            1nat
        } else {
            0nat
        }
    }
}

/// The wrong proofs since the last lockout or pairing, and the lockouts since
/// the last pairing.
pub open spec fn tally(a: AuthModel, events: Seq<PairingEvent>) -> (nat, nat)
    decreases events.len(),
{
    if events.len() == 0 {
        (a.fail_count as nat, a.lockout_count as nat)
    } else {
        let rest = events.drop_last();
        let (fails, lockouts) = tally(a, rest);
        if is_pairing(after_events(a, rest), events.last()) {
            (0, 0)
        } else if !is_wrong(after_events(a, rest), events.last()) {
            (fails, lockouts)
        } else if fails + 1 < LOCKOUT_THRESHOLD {
            (fails + 1, lockouts)
        } else {
            (0, lockouts + 1)
        }
    }
}

/// The counters count what they should, over any run of events: wrong proofs
/// since the last lockout or pairing, and lockouts since the last pairing.
pub proof fn law_counters_are_right(a: AuthModel, events: Seq<PairingEvent>)
    requires
        a.fail_count < LOCKOUT_THRESHOLD,
        a.lockout_count + events.len() <= u32::MAX,
    ensures
        after_events(a, events).fail_count == tally(a, events).0,
        after_events(a, events).lockout_count == tally(a, events).1,
        tally(a, events).0 < LOCKOUT_THRESHOLD,
        tally(a, events).1 <= a.lockout_count + events.len(),
    decreases events.len(),
{
    if events.len() > 0 {
        law_counters_are_right(a, events.drop_last());
    }
}

/// The end of a cooldown moves only with a lockout: as long as the wrong proofs
/// do not use up the budget, no run of events changes it.
pub proof fn law_cooldown_end_stays(a: AuthModel, events: Seq<PairingEvent>)
    requires
        a.fail_count + wrong_among(a, events) < LOCKOUT_THRESHOLD,
    ensures
        after_events(a, events).locked_until == a.locked_until,
        after_events(a, events).fail_count <= a.fail_count + wrong_among(a, events),
    decreases events.len(),
{
    if events.len() > 0 {
        law_cooldown_end_stays(a, events.drop_last());
    }
}

/// The third wrong proof since the last lockout or pairing is still only
/// rejected, but from then on every attempt before the end of the cooldown is
/// refused as locked out, and none at or after it is, until three more wrong
/// proofs: whatever is armed, tried and revoked in between.
pub proof fn law_lockout_holds_until_its_end(
    a: AuthModel,
    device_id: Seq<char>,
    name: Seq<char>,
    given: Seq<u8>,
    binding: Seq<u8>,
    at: u64,
    events: Seq<PairingEvent>,
    id2: Seq<char>,
    name2: Seq<char>,
    given2: Seq<u8>,
    binding2: Seq<u8>,
    now: u64,
)
    requires
        a.fail_count == LOCKOUT_THRESHOLD - 1,
        a.lockout_count < u32::MAX,
        at + cooldown(a.lockout_count) <= u64::MAX,
        is_wrong(a, PairingEvent::Attempt { device_id, name, given, binding, now: at }),
        wrong_among(attempt(a, device_id, name, given, binding, at).0, events)
            < LOCKOUT_THRESHOLD,
    ensures
        ({
            let third = attempt(a, device_id, name, given, binding, at);
            let later = attempt(
                after_events(third.0, events),
                id2,
                name2,
                given2,
                binding2,
                now,
            );
            &&& third.1 == OutcomeModel::Rejected
            &&& third.0.lockout_count == a.lockout_count + 1
            &&& later.1 == OutcomeModel::LockedOut <==> now < at + cooldown(a.lockout_count)
        }),
{
    let third = attempt(a, device_id, name, given, binding, at).0;
    law_cooldown_escalates(a.lockout_count);
    assert(third.fail_count == 0);
    law_cooldown_end_stays(third, events);
}

/// Whether an event is an attempt that is refused as locked out.
pub open spec fn is_locked_out(a: AuthModel, e: PairingEvent) -> bool {
    e matches PairingEvent::Attempt { device_id, name, given, binding, now } && attempt(
        a,
        device_id,
        name,
        given,
        binding,
        now,
    ).1 == OutcomeModel::LockedOut
}

proof fn lemma_fewer_wrong_before(a: AuthModel, events: Seq<PairingEvent>, k: int)
    requires
        0 <= k <= events.len(),
    ensures
        wrong_among(a, events.take(k)) <= wrong_among(a, events),
    decreases events.len(),
{
    if k == events.len() {
        assert(events.take(k) =~= events);
    } else {
        lemma_fewer_wrong_before(a, events.drop_last(), k);
        assert(events.drop_last().take(k) =~= events.take(k));
    }
}

/// The same of every attempt in a run after the third wrong proof, as long as the
/// run holds fewer than three more: each is refused as locked out exactly if it
/// comes before the end of the cooldown, with whatever proof.
pub proof fn law_lockout_over_a_run(
    a: AuthModel,
    device_id: Seq<char>,
    name: Seq<char>,
    given: Seq<u8>,
    binding: Seq<u8>,
    at: u64,
    events: Seq<PairingEvent>,
)
    requires
        a.fail_count == LOCKOUT_THRESHOLD - 1,
        a.lockout_count < u32::MAX,
        at + cooldown(a.lockout_count) <= u64::MAX,
        is_wrong(a, PairingEvent::Attempt { device_id, name, given, binding, now: at }),
        wrong_among(attempt(a, device_id, name, given, binding, at).0, events)
            < LOCKOUT_THRESHOLD,
    ensures
        ({
            let third = attempt(a, device_id, name, given, binding, at).0;
            forall|k: int|
                0 <= k < events.len() && #[trigger] events[k] is Attempt ==> (is_locked_out(
                    after_events(third, events.take(k)),
                    events[k],
                ) <==> events[k]->Attempt_now < at + cooldown(a.lockout_count))
        }),
{
    let third = attempt(a, device_id, name, given, binding, at).0;
    assert forall|k: int| 0 <= k < events.len() && #[trigger] events[k] is Attempt implies (
    is_locked_out(after_events(third, events.take(k)), events[k]) <==> events[k]->Attempt_now < at
        + cooldown(a.lockout_count)) by {
        lemma_fewer_wrong_before(third, events, k);
        if let PairingEvent::Attempt { device_id: id2, name: name2, given: given2, binding: b2, now } =
            events[k] {
            law_lockout_holds_until_its_end(
                a,
                device_id,
                name,
                given,
                binding,
                at,
                events.take(k),
                id2,
                name2,
                given2,
                b2,
                now,
            );
        }
    }
}

/// Each lockout doubles the cooldown, from `LOCKOUT_SECS` up to a cap.
pub proof fn law_cooldown_escalates(lockouts: u32)
    ensures
        cooldown(0) == LOCKOUT_SECS,
        lockouts < MAX_DOUBLINGS ==> cooldown((lockouts + 1) as u32) == 2 * cooldown(lockouts),
        lockouts >= MAX_DOUBLINGS ==> cooldown(lockouts) == 1024 * LOCKOUT_SECS,
        cooldown(lockouts) >= LOCKOUT_SECS,
{
    lemma2_to64();
}

/// A successful pairing clears the failures and the escalation.
pub proof fn law_success_clears_the_budget(
    a: AuthModel,
    device_id: Seq<char>,
    name: Seq<char>,
    given: Seq<u8>,
    binding: Seq<u8>,
    now: u64,
)
    ensures
        attempt(a, device_id, name, given, binding, now).1 is Paired ==> {
            let b = attempt(a, device_id, name, given, binding, now).0;
            b.fail_count == 0 && b.lockout_count == 0
        },
{
}

/// Both ends of a connection derive the same binding, whichever fingerprint
/// each takes for its own.
pub proof fn law_binding_is_order_independent(fp_a: Seq<char>, fp_b: Seq<char>)
    ensures
        binding_for(fp_a, fp_b) == binding_for(fp_b, fp_a),
{
    let x = encode_utf8(normalized(fp_a));
    let y = encode_utf8(normalized(fp_b));
    lemma_bytes_le_total(x, y);
    assert(binding_input(normalized(fp_a), normalized(fp_b)) =~= binding_input(
        normalized(fp_b),
        normalized(fp_a),
    ));
}

proof fn lemma_stripped_is_clean(fp: Seq<char>)
    ensures
        forall|i: int|
            0 <= i < stripped(fp).len() ==> !white_space(#[trigger] stripped(fp)[i])
                && stripped(fp)[i] != ':',
    decreases fp.len(),
{
    if fp.len() > 0 {
        let front = stripped(fp.drop_last());
        lemma_stripped_is_clean(fp.drop_last());
        assert forall|i: int| 0 <= i < stripped(fp).len() implies !white_space(
            #[trigger] stripped(fp)[i],
        ) && stripped(fp)[i] != ':' by {
            if i < front.len() {
                assert(stripped(fp)[i] == front[i]);
            }
        }
    }
}

pub proof fn lemma_clean_stays(s: Seq<char>)
    requires
        forall|i: int| 0 <= i < s.len() ==> !white_space(#[trigger] s[i]) && s[i] != ':',
    ensures
        stripped(s) == s,
    decreases s.len(),
{
    if s.len() > 0 {
        lemma_clean_stays(s.drop_last());
        assert(!white_space(s[s.len() - 1]));
        assert(s.drop_last().push(s.last()) =~= s);
    } else {
        assert(s =~= Seq::empty());
    }
}

/// The binding is the same whatever colons and white space the fingerprints
/// hold: those that come to the same characters give the same binding, and so do
/// those characters alone.
pub proof fn law_binding_ignores_separators(
    fp_a: Seq<char>,
    fp_b: Seq<char>,
    other_a: Seq<char>,
    other_b: Seq<char>,
)
    requires
        stripped(fp_a) == stripped(other_a),
        stripped(fp_b) == stripped(other_b),
    ensures
        binding_for(fp_a, fp_b) == binding_for(other_a, other_b),
        binding_for(fp_a, fp_b) == binding_for(stripped(fp_a), stripped(fp_b)),
{
    lemma_stripped_is_clean(fp_a);
    lemma_stripped_is_clean(fp_b);
    lemma_clean_stays(stripped(fp_a));
    lemma_clean_stays(stripped(fp_b));
}

proof fn lemma_normalized_is_normal(fp: Seq<char>)
    requires
        is_ascii_chars(stripped(fp)),
    ensures
        normalized(normalized(fp)) == normalized(fp),
{
    let s = stripped(fp);
    let n = normalized(fp);
    lemma_stripped_is_clean(fp);
    assert forall|i: int| 0 <= i < n.len() implies !white_space(#[trigger] n[i]) && n[i] != ':'
        && (n[i] as int) < 128 && ascii_upper(n[i]) == n[i] by {
        assert(!white_space(s[i]) && s[i] != ':');
        assert((s[i] as int) < 128);
        assert(n[i] == ascii_upper(s[i]));
    }
    lemma_clean_stays(n);
    assert(is_ascii_chars(n));
    assert(uppercase(n) =~= n);
}

/// The binding of ASCII fingerprints is the same in either case of letters and
/// with or without separators: it is the one of the normalized fingerprints.
pub proof fn law_binding_of_normalized(fp_a: Seq<char>, fp_b: Seq<char>)
    requires
        is_ascii_chars(stripped(fp_a)),
        is_ascii_chars(stripped(fp_b)),
    ensures
        binding_for(normalized(fp_a), normalized(fp_b)) == binding_for(fp_a, fp_b),
{
    lemma_normalized_is_normal(fp_a);
    lemma_normalized_is_normal(fp_b);
}

/// A pairing code is eight characters of the alphabet.
pub proof fn law_code_alphabet(bits: u64, i: int)
    requires
        0 <= i < 8,
    ensures
        code_text(bits).len() == 8,
        CROCKFORD@.contains(code_text(bits)[i]),
{
    reveal_strlit("0123456789ABCDEFGHJKMNPQRSTVWXYZ");
    let v = (bits >> ((35 - 5 * i) as u64)) % 32;
    assert(CROCKFORD@[v as int] == code_text(bits)[i]);
}

/// The text whose tag is a token names one device and one time of pairing: the
/// tokens of other devices, or of the same device paired at another time, are
/// tags of other texts.
pub proof fn law_token_subject_is_unambiguous(id1: Seq<char>, at1: u64, id2: Seq<char>, at2: u64)
    requires
        id1.push(':') + decimal(at1 as nat) == id2.push(':') + decimal(at2 as nat),
    ensures
        id1 == id2,
        at1 == at2,
{
    let n1 = decimal(at1 as nat);
    let n2 = decimal(at2 as nat);
    let s = id1.push(':') + n1;
    lemma_decimal_digits(at1 as nat);
    lemma_decimal_digits(at2 as nat);
    assert(s == id2.push(':') + n2);
    assert(s[id1.len() as int] == ':');
    assert(s[id2.len() as int] == ':');
    if id1.len() < id2.len() {
        assert(s[id2.len() as int] == n1[id2.len() - id1.len() - 1]);
    }
    if id2.len() < id1.len() {
        assert(s[id1.len() as int] == n2[id1.len() - id2.len() - 1]);
    }
    assert(s.take(id1.len() as int) =~= id1);
    assert(s.take(id2.len() as int) =~= id2);
    assert(s.skip(id1.len() as int + 1) =~= n1);
    assert(s.skip(id2.len() as int + 1) =~= n2);
    lemma_decimal_injective(at1 as nat, at2 as nat);
}

/// Pairing again rotates the token: of all tokens only the one of the latest
/// pairing lets the device in.
pub proof fn law_repairing_rotates_the_token(
    a: AuthModel,
    device_id: Seq<char>,
    name: Seq<char>,
    given: Seq<u8>,
    binding: Seq<u8>,
    now: u64,
    token: Seq<char>,
)
    requires
        attempt(a, device_id, name, given, binding, now).1 is Paired,
    ensures
        token_ok(attempt(a, device_id, name, given, binding, now).0, device_id, token) <==> token
            == token_for(a.host_key, device_id, now),
{
}

} // verus!
