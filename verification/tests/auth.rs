use tether::auth::{
    binding_bytes, channel_binding, check_key_mode, fresh_key, group_code, pairing_proof,
    parse_host_key,    HostKeyError, PairOutcome, PairedDevice, PairingAuth, CODE_TTL_SECS, CROCKFORD, LOCKOUT_SECS,
    LOCKOUT_THRESHOLD,
};
use tether::strmap::StrMap;

fn fresh(host: u8) -> PairingAuth {
    PairingAuth::new([host; 32], StrMap::new())
}

const CHAN: [u8; 32] = [7u8; 32];

#[test]
fn pair_then_token_verifies_and_revocation_works() {
    let mut a = fresh(1);
    assert!(a.is_empty());

    let code = a.arm(1000).unwrap();
    let proof = pairing_proof(&code, &CHAN);
    let outcome = a.verify_pairing("dev1", "iPad", &proof, &CHAN, 1001);
    let PairOutcome::Paired { token } = outcome else {
        panic!("expected Paired, got {outcome:?}");
    };
    assert!(!a.is_empty());
    assert!(a.verify_token("dev1", &token));
    assert!(!a.verify_token("dev2", &token)); // unknown device
    assert!(!a.verify_token("dev1", "deadbeef")); // wrong token

    // revoke: the token stops working even though the HMAC still matches
    assert!(a.revoke("dev1"));
    assert!(!a.verify_token("dev1", &token));
    assert!(!a.revoke("dev1"));
}

#[test]
fn token_persists_across_reload() {
    let mut a = fresh(1);
    let code = a.arm(1000).unwrap();
    let proof = pairing_proof(&code, &CHAN);
    let token = match a.verify_pairing("dev1", "iPad", &proof, &CHAN, 1001) {
        PairOutcome::Paired { token } => token,
        o => panic!("{o:?}"),
    };
    // a brand-new instance (reloaded host key + allowlist) still verifies it
    let b = PairingAuth::new([1; 32], a.paired_devices().clone());
    assert!(b.verify_token("dev1", &token));
}

#[test]
fn wrong_code_consumes_and_does_not_pair() {
    let mut a = fresh(1);
    a.arm(1000).unwrap();
    // attacker guesses a bad proof
    let bad = vec![0u8; 32];
    assert_eq!(a.verify_pairing("dev", "x", &bad, &CHAN, 1001), PairOutcome::Rejected);
    // code is consumed: even the correct proof now fails (no active code)
    assert_eq!(
        a.verify_pairing("dev", "x", &[0u8; 32], &CHAN, 1002),
        PairOutcome::NoActiveCode
    );
}

#[test]
fn fingerprint_mismatch_fails_pairing_mitm_regression() {
    let mut a = fresh(1);
    let code = a.arm(1000).unwrap();
    // controller computed its proof against a DIFFERENT channel binding (as a
    // relay in the middle would cause): the host rejects.
    let controller_chan = [9u8; 32];
    let proof = pairing_proof(&code, &controller_chan);
    let host_chan = [7u8; 32];
    assert_eq!(
        a.verify_pairing("dev", "x", &proof, &host_chan, 1001),
        PairOutcome::Rejected
    );
}

#[test]
fn lockout_after_repeated_failures() {
    let mut a = fresh(1);
    for _ in 0..LOCKOUT_THRESHOLD {
        a.arm(1000).unwrap(); // each wrong attempt consumes the code; re-arm to retry
        assert_eq!(
            a.verify_pairing("dev", "x", &[0u8; 32], &CHAN, 1000),
            PairOutcome::Rejected
        );
    }
    // now locked out: even a correct attempt is refused during cooldown
    let code = a.arm(1000).unwrap();
    let proof = pairing_proof(&code, &CHAN);
    assert_eq!(a.verify_pairing("dev", "x", &proof, &CHAN, 1000), PairOutcome::LockedOut);
    // after the cooldown, pairing works again
    let code = a.arm(1000 + LOCKOUT_SECS + 1).unwrap();
    let proof = pairing_proof(&code, &CHAN);
    assert!(matches!(
        a.verify_pairing("dev", "x", &proof, &CHAN, 1000 + LOCKOUT_SECS + 2),
        PairOutcome::Paired { .. }
    ));
}

#[test]
fn expired_code_is_rejected() {
    let mut a = fresh(1);
    let code = a.arm(1000).unwrap();
    let proof = pairing_proof(&code, &CHAN);
    assert_eq!(
        a.verify_pairing("dev", "x", &proof, &CHAN, 1000 + CODE_TTL_SECS + 1),
        PairOutcome::NoActiveCode
    );
}

#[test]
fn tokens_are_host_specific() {
    let mut a = fresh(1);
    let code = a.arm(1000).unwrap();
    let token = match a.verify_pairing("dev", "x", &pairing_proof(&code, &CHAN), &CHAN, 1001) {
        PairOutcome::Paired { token } => token,
        o => panic!("{o:?}"),
    };
    // a different host (distinct host key) must reject A's token even if the
    // device is "paired" there
    let mut b = fresh(2);
    let code_b = b.arm(1000).unwrap();
    b.verify_pairing("dev", "x", &pairing_proof(&code_b, &CHAN), &CHAN, 1001);
    assert!(!b.verify_token("dev", &token));
}

#[test]
fn channel_binding_is_order_independent_and_distinguishes() {
    let fp1 = "AA:BB:CC";
    let fp2 = "dd:ee:ff";
    assert_eq!(channel_binding(fp1, fp2), channel_binding(fp2, fp1));
    assert_ne!(channel_binding(fp1, fp2), channel_binding(fp1, "00:11:22"));
}

#[test]
fn code_is_eight_crockford_chars() {
    let mut a = fresh(1);
    let code = a.arm(0).unwrap();
    assert_eq!(code.len(), 8);
    assert!(code.bytes().all(|b| CROCKFORD.as_bytes().contains(&b)));
    assert_eq!(group_code(&code).len(), 9); // XXXX-XXXX
}

#[test]
fn codes_come_from_the_low_forty_bits() {
    let mut a = fresh(1);
    assert_eq!(a.arm_with(0, 0), "00000000");
    assert_eq!(a.arm_with(0xFF_FFFF_FFFF, 0), "ZZZZZZZZ");
    assert_eq!(a.arm_with(0xFFFF_FF00_0000_001F, 0), "0000000Z");
    assert_eq!(a.arm_with(0x0A_6418_8401, 0), "19J1H101");
    assert_eq!(a.arm_with(1 << 35, 0), "10000000");
    assert_eq!(group_code("ABCD1234"), "ABCD-1234");
    assert_eq!(group_code("ABC"), "ABC");
    assert_eq!(group_code("éééé"), "éé-éé");
}

#[test]
fn two_fresh_codes_differ() {
    let mut a = fresh(1);
    assert_ne!(a.arm(0).unwrap(), a.arm(0).unwrap());
}

#[test]
fn proof_is_hmac_sha256_of_the_binding_under_the_code() {
    // HMAC-SHA-256("ABCD1234", 32 bytes of 7)
    let tag = pairing_proof("ABCD1234", &CHAN);
    assert_eq!(hex::encode(tag), "71e230571177d6680a36d8cdcc68c71eb6d9fa5d77be32ea95b5d8c8ade919b5");
}

#[test]
fn token_is_the_tag_of_device_and_time_in_hex() {
    let mut a = fresh(1);
    a.arm_with(5, 1000);
    let proof = pairing_proof("00000005", &CHAN);
    assert_eq!(
        a.verify_pairing("dev1", "iPad", &proof, &CHAN, 1234),
        PairOutcome::Paired { token: "b199a34b6499b8a5d96516491389536c0f03d4ea3507ead4ec86b92214ea5bbe".into() }
    );
    assert_eq!(
        a.paired_devices().get("dev1"),
        Some(&PairedDevice { name: "iPad".into(), paired_at: 1234 })
    );
}

#[test]
fn binding_hashes_normalized_fingerprints_lesser_first() {
    assert_eq!(binding_bytes("DDEEFF", "AABBCC"), b"AABBCC|DDEEFF");
    assert_eq!(binding_bytes("AB", "ABC"), b"AB|ABC");
    // SHA-256("AABBCC|DDEEFF")
    assert_eq!(hex::encode(channel_binding(" dd:ee:ff\n", "AA:BB:CC")), "50fee9f2c211950326bf5231a3051607d24245683869a7b359c2be8bd57d29cf");
}

#[test]
fn concluding_on_given_values() {
    let mut a = fresh(1);
    a.arm_with(0, 100);
    assert_eq!(a.conclude("d", "n", true, "t".into(), 100), PairOutcome::Paired { token: "t".into() });
    assert_eq!(a.conclude("d", "n", true, "t".into(), 100), PairOutcome::NoActiveCode);
    a.arm_with(0, 100);
    assert_eq!(a.conclude("", "n", true, "t".into(), 100), PairOutcome::Rejected);
    a.arm_with(0, 100);
    assert_eq!(a.conclude(&"x".repeat(129), "n", true, "t".into(), 100), PairOutcome::Rejected);
    a.arm_with(0, 100);
    assert!(matches!(
        a.conclude(&"x".repeat(128), "n", true, "t".into(), 399),
        PairOutcome::Paired { .. }
    ));
}

#[test]
fn cooldowns_double_and_success_clears_them() {
    let mut a = fresh(1);
    let mut now: u64 = 1000;
    let mut cooldown = LOCKOUT_SECS;
    for round in 0..13 {
        for _ in 0..LOCKOUT_THRESHOLD {
            a.arm_with(0, now);
            assert_eq!(a.conclude("d", "n", false, String::new(), now), PairOutcome::Rejected);
        }
        a.arm_with(0, now);
        assert_eq!(
            a.conclude("d", "n", true, "t".into(), now + cooldown - 1),
            PairOutcome::LockedOut
        );
        now += cooldown;
        if round < 10 {
            cooldown *= 2;
        }
    }
    assert_eq!(cooldown, 61_440);
    a.arm_with(0, now);
    assert!(matches!(a.conclude("d", "n", true, "t".into(), now), PairOutcome::Paired { .. }));
    for _ in 0..LOCKOUT_THRESHOLD {
        a.arm_with(0, now);
        a.conclude("d", "n", false, String::new(), now);
    }
    a.arm_with(0, now);
    assert_eq!(a.conclude("d", "n", true, "t".into(), now + 59), PairOutcome::LockedOut);
    a.arm_with(0, now + 60);
    assert!(matches!(a.conclude("d", "n", true, "t".into(), now + 60), PairOutcome::Paired { .. }));
}

#[test]
fn host_key_files_are_checked() {
    assert_eq!(check_key_mode(0o600), Ok(()));
    assert_eq!(check_key_mode(0o100600), Ok(()));
    assert_eq!(check_key_mode(0o100644), Err(HostKeyError::Exposed { mode: 0o644 }));
    assert_eq!(parse_host_key(&[3; 32]), Ok([3; 32]));
    assert_eq!(parse_host_key(&[3; 31]), Err(HostKeyError::Corrupt { len: 31 }));
    assert_eq!(
        HostKeyError::Exposed { mode: 0o644 }.message("k"),
        "k is group/world-accessible (mode 644); refusing to use it"
    );
    assert_eq!(
        HostKeyError::Corrupt { len: 31 }.message("k"),
        "k is corrupt (expected 32 bytes, got 31)"
    );
}

#[test]
fn an_attempt_during_a_lockout_consumes_the_code() {
    let mut a = fresh(1);
    for _ in 0..LOCKOUT_THRESHOLD {
        a.arm(1000).unwrap();
        assert_eq!(
            a.verify_pairing("dev", "x", &[0; 32], &[7; 32], 1000),
            PairOutcome::Rejected
        );
    }
    let code = a.arm(1000).unwrap();
    let p = pairing_proof(&code, &[7; 32]);
    assert_eq!(a.verify_pairing("dev", "x", &p, &[7; 32], 1000), PairOutcome::LockedOut);
    assert_eq!(a.verify_pairing("dev", "x", &p, &[7; 32], 1061), PairOutcome::NoActiveCode);
}

#[test]
fn a_lockout_holds_until_its_end() {
    let mut a = fresh(1);
    for _ in 0..LOCKOUT_THRESHOLD {
        a.arm_with(0, 1000);
        a.conclude("d", "n", false, String::new(), 1000);
    }
    for now in [1000, 1030, 1059] {
        a.arm_with(0, now);
        assert_eq!(a.conclude("d", "n", true, "t".into(), now), PairOutcome::LockedOut);
    }
    for _ in 0..LOCKOUT_THRESHOLD {
        a.arm_with(0, 1060);
        assert_eq!(a.conclude("d", "n", false, String::new(), 1060), PairOutcome::Rejected);
    }
    a.arm_with(0, 1179);
    assert_eq!(a.conclude("d", "n", true, "t".into(), 1179), PairOutcome::LockedOut);
}

#[test]
fn the_clock_matters_only_where_a_lockout_may_trip() {
    let mut a = fresh(1);
    assert_eq!(a.verify_pairing("d", "n", &[], &CHAN, u64::MAX), PairOutcome::NoActiveCode);
    a.arm_with(0, u64::MAX - CODE_TTL_SECS);
    assert_eq!(a.conclude("d", "n", false, String::new(), u64::MAX - 1), PairOutcome::Rejected);
}

#[test]
fn bindings_ignore_separators_and_case() {
    let plain = channel_binding("AABBCC", "DDEEFF");
    assert_eq!(channel_binding("AA:BB:CC", "dd:ee:ff"), plain);
    assert_eq!(channel_binding(" aa bb\tcc\u{3000}", "DD:EE FF"), plain);
    assert_ne!(channel_binding("AA:BB:CC", "00:11:22"), plain);
}

#[test]
fn fresh_keys_differ() {
    assert_ne!(fresh_key().unwrap(), fresh_key().unwrap());
}

#[test]
fn only_the_newest_code_counts_and_arming_clears_nothing() {
    let mut a = fresh(1);
    let first = a.arm_with(1, 1000);
    a.arm_with(2, 1000);
    assert_eq!(
        a.verify_pairing("d", "n", &pairing_proof(&first, &CHAN), &CHAN, 1000),
        PairOutcome::Rejected
    );
    for _ in 1..LOCKOUT_THRESHOLD {
        a.arm_with(3, 1000);
        a.arm_with(4, 1000);
        a.conclude("d", "n", false, String::new(), 1000);
    }
    let code = a.arm_with(5, 1001);
    assert_eq!(
        a.verify_pairing("d", "n", &pairing_proof(&code, &CHAN), &CHAN, 1001),
        PairOutcome::LockedOut
    );
}
