use ed25519_dalek::{Signer, SigningKey};
use tether::signal::identity::{
    new_nonce, nonce_from, register_payload, verify_signature, IdentityError, IdentityStore,
};
use tether::signal::protocol::ErrorCode;

fn key(seed: u8) -> SigningKey {
    SigningKey::from_bytes(&[seed; 32])
}

fn signed(k: &SigningKey, nonce: &str, device_id: &str) -> (String, String) {
    let pubkey = hex::encode(k.verifying_key().to_bytes());
    let sig = hex::encode(k.sign(&register_payload(nonce, device_id)).to_bytes());
    (pubkey, sig)
}

#[test]
fn pins_on_first_use_and_accepts_the_same_key_again() {
    let mut store = IdentityStore::ephemeral();
    let k = key(1);
    let (pk, sig) = signed(&k, "nonce-a", "mac");
    assert_eq!(
        store.authorize("mac", "nonce-a", Some(&pk), Some(&sig), true),
        Ok(())
    );
    assert_eq!(store.len(), 1);

    // Same key, a fresh connection nonce.
    let (pk2, sig2) = signed(&k, "nonce-b", "mac");
    assert_eq!(
        store.authorize("mac", "nonce-b", Some(&pk2), Some(&sig2), true),
        Ok(())
    );
    assert_eq!(store.len(), 1, "re-registering must not add a second pin");
}

/// The squatting case this whole module exists for.
#[test]
fn refuses_a_different_key_for_a_pinned_id() {
    let mut store = IdentityStore::ephemeral();
    let (pk, sig) = signed(&key(1), "n", "mac");
    store
        .authorize("mac", "n", Some(&pk), Some(&sig), true)
        .unwrap();

    let (evil_pk, evil_sig) = signed(&key(2), "n", "mac");
    assert_eq!(
        store.authorize("mac", "n", Some(&evil_pk), Some(&evil_sig), true),
        Err(IdentityError::Mismatch)
    );
}

/// Omitting the key must not be a way around the pin.
#[test]
fn pinned_id_cannot_drop_back_to_no_identity() {
    let mut store = IdentityStore::ephemeral();
    let (pk, sig) = signed(&key(1), "n", "phone");
    store
        .authorize("phone", "n", Some(&pk), Some(&sig), false)
        .unwrap();
    assert_eq!(
        store.authorize("phone", "n", None, None, false),
        Err(IdentityError::Missing)
    );
}

#[test]
fn hosts_must_present_an_identity_but_fresh_controllers_need_not() {
    let mut store = IdentityStore::ephemeral();
    assert_eq!(
        store.authorize("mac", "n", None, None, true),
        Err(IdentityError::Missing)
    );
    assert_eq!(store.authorize("phone", "n", None, None, false), Ok(()));
    assert!(store.is_empty(), "an identity-less peer must not be pinned");
}

/// A signature is bound to both the nonce and the device id.
#[test]
fn signature_does_not_transfer_across_nonce_or_device() {
    let k = key(3);
    let (pk, sig) = signed(&k, "nonce-a", "mac");

    let mut store = IdentityStore::ephemeral();
    assert_eq!(
        store.authorize("mac", "nonce-b", Some(&pk), Some(&sig), true),
        Err(IdentityError::BadSignature),
        "replaying onto another connection's nonce must fail"
    );
    assert_eq!(
        store.authorize("laptop", "nonce-a", Some(&pk), Some(&sig), true),
        Err(IdentityError::BadSignature),
        "reusing a signature to claim another device id must fail"
    );
}

#[test]
fn malformed_identities_are_rejected_not_panicked_on() {
    let mut store = IdentityStore::ephemeral();
    let (pk, sig) = signed(&key(4), "n", "mac");
    for (pubkey, signature) in [
        ("zz", sig.as_str()),
        (pk.as_str(), "zz"),
        ("00", sig.as_str()),
        (pk.as_str(), "00"),
        // 32 valid hex bytes that are not a curve point.
        (&"ff".repeat(32), sig.as_str()),
    ] {
        assert!(matches!(
            store.authorize("mac", "n", Some(pubkey), Some(signature), true),
            Err(IdentityError::Malformed(_)) | Err(IdentityError::BadSignature)
        ));
    }
    assert!(store.is_empty(), "nothing may be pinned by a bad attempt");
}

/// The browser controller signs these exact bytes.
#[test]
fn register_payload_cross_implementation_vector() {
    assert_eq!(
        hex::encode(register_payload("abc", "mac")),
        "7465746865722d7369676e616c2d72656769737465722d763100616263006d6163"
    );
}

/// The separators are what stop `(nonce="a", id="bc")` and
/// `(nonce="ab", id="c")` from signing the same bytes.
#[test]
fn payload_is_unambiguous_across_the_nonce_device_boundary() {
    assert_ne!(register_payload("a", "bc"), register_payload("ab", "c"));
}

/// Pins handed to a new store still hold.
#[test]
fn a_restart_does_not_reopen_the_first_use_window() {
    let (pk, sig) = signed(&key(5), "n", "mac");
    let mut store = IdentityStore::ephemeral();
    store.authorize("mac", "n", Some(&pk), Some(&sig), true).unwrap();

    let mut reloaded = IdentityStore::with_pins(store.pins().clone());
    assert_eq!(reloaded.len(), 1);
    let (evil_pk, evil_sig) = signed(&key(6), "n", "mac");
    assert_eq!(
        reloaded.authorize("mac", "n", Some(&evil_pk), Some(&evil_sig), true),
        Err(IdentityError::Mismatch)
    );
}

#[test]
fn each_malformed_identity_is_told_apart() {
    let (pk, sig) = signed(&key(4), "n", "mac");
    assert_eq!(verify_signature(&pk, &sig, "n", "mac"), Ok(()));
    assert_eq!(
        verify_signature("zz", &sig, "n", "mac"),
        Err(IdentityError::Malformed("pubkey is not hex"))
    );
    assert_eq!(
        verify_signature("abc", &sig, "n", "mac"),
        Err(IdentityError::Malformed("pubkey is not hex"))
    );
    assert_eq!(
        verify_signature("00", &sig, "n", "mac"),
        Err(IdentityError::Malformed("pubkey is not 32 bytes"))
    );
    assert_eq!(
        verify_signature(&pk, "zz", "n", "mac"),
        Err(IdentityError::Malformed("signature is not hex"))
    );
    assert_eq!(
        verify_signature(&pk, "00", "n", "mac"),
        Err(IdentityError::Malformed("signature is not 64 bytes"))
    );
    // y = 2 is on no curve point
    let mut off_curve = String::from("02");
    off_curve.push_str(&"00".repeat(31));
    assert_eq!(
        verify_signature(&off_curve, &sig, "n", "mac"),
        Err(IdentityError::Malformed("pubkey is not a valid Ed25519 point"))
    );
    // upper-case hex is hex too
    assert_eq!(verify_signature(&pk.to_uppercase(), &sig, "n", "mac"), Ok(()));
}

#[test]
fn a_checked_signature_decides_on_given_values() {
    let mut store = IdentityStore::ephemeral();
    assert_eq!(
        store.decide_presented("mac", "k1", Err(IdentityError::BadSignature)),
        Err(IdentityError::BadSignature)
    );
    assert!(store.is_empty());
    assert_eq!(store.decide_presented("mac", "k1", Ok(())), Ok(()));
    assert_eq!(store.decide_presented("mac", "k2", Ok(())), Err(IdentityError::Mismatch));
    assert_eq!(store.decide_presented("mac", "k1", Ok(())), Ok(()));
    assert_eq!(store.decide_absent("mac", false), Err(IdentityError::Missing));
    assert_eq!(store.decide_absent("phone", false), Ok(()));
}

#[test]
fn refusals_in_words_and_codes() {
    for (e, text, code) in [
        (
            IdentityError::Missing,
            "this device id requires a signed registration",
            ErrorCode::IdentityRequired,
        ),
        (IdentityError::Malformed("x"), "malformed identity: x", ErrorCode::BadIdentity),
        (
            IdentityError::BadSignature,
            "registration signature did not verify",
            ErrorCode::BadIdentity,
        ),
        (
            IdentityError::Mismatch,
            "device id is pinned to a different identity key; refusing to replace it",
            ErrorCode::IdentityMismatch,
        ),
    ] {
        assert_eq!(e.message(), text);
        assert_eq!(e.error_code(), code);
    }
}

#[test]
fn nonces_are_64_hex_digits_and_differ() {
    let mut bytes = [0u8; 32];
    bytes[0] = 0xAB;
    bytes[31] = 7;
    assert_eq!(nonce_from(&bytes), format!("ab{}07", "00".repeat(30)));
    let a = new_nonce().unwrap();
    let b = new_nonce().unwrap();
    assert_eq!(a.len(), 64);
    assert!(a.bytes().all(|c| c.is_ascii_digit() || (b'a'..=b'f').contains(&c)));
    assert_ne!(a, b);
}

#[test]
fn a_pinned_key_is_the_same_key_in_either_case() {
    let k = key(1);
    let (pk, sig) = signed(&k, "n", "mac");
    let mut s = IdentityStore::ephemeral();
    assert_eq!(s.authorize("mac", "n", Some(&pk), Some(&sig), true), Ok(()));
    assert_eq!(s.authorize("mac", "n", Some(&pk.to_uppercase()), Some(&sig), true), Ok(()));
    assert_eq!(s.pins().get("mac"), Some(&pk));
    let (other, sig) = signed(&key(2), "n", "mac");
    assert_eq!(
        s.authorize("mac", "n", Some(&other.to_uppercase()), Some(&sig), true),
        Err(IdentityError::Mismatch)
    );
}
