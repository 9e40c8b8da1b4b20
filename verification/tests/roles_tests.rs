use rustls_post_quantum::{
    KxError, X25519MLKEM768, COMBINED_CIPHERTEXT_LEN, COMBINED_PUBKEY_LEN,
    COMBINED_SHARED_SECRET_LEN, NAMED_GROUP, TLS13_VERSION,
};

#[test]
fn round_trip_yields_identical_secrets() {
    let group = X25519MLKEM768;
    let initiator = group.start().unwrap();
    assert_eq!(initiator.pub_key().len(), COMBINED_PUBKEY_LEN);

    let done = group.start_and_complete(initiator.pub_key()).unwrap();
    assert_eq!(done.group, NAMED_GROUP);
    assert_eq!(done.pub_key.len(), COMBINED_CIPHERTEXT_LEN);
    assert_eq!(done.secret.0.len(), COMBINED_SHARED_SECRET_LEN);

    let initiator_secret = initiator.complete(&done.pub_key).unwrap();
    assert_eq!(initiator_secret.0.len(), COMBINED_SHARED_SECRET_LEN);
    assert_eq!(initiator_secret.0, done.secret.0);
}

#[test]
fn wrong_length_share_is_invalid_key_share() {
    let group = X25519MLKEM768;
    for len in [0usize, 10, COMBINED_PUBKEY_LEN - 1, COMBINED_PUBKEY_LEN + 1] {
        let share = vec![0u8; len];
        let r = group.start_and_complete(&share);
        assert!(matches!(r, Err(KxError::InvalidKeyShare)));
    }
}

#[test]
fn wrong_length_ciphertext_is_invalid_key_share() {
    let group = X25519MLKEM768;
    for len in [
        0usize,
        10,
        COMBINED_CIPHERTEXT_LEN - 1,
        COMBINED_CIPHERTEXT_LEN + 1,
    ] {
        let initiator = group.start().unwrap();
        let ciphertext = vec![0u8; len];
        let r = initiator.complete(&ciphertext);
        assert!(matches!(r, Err(KxError::InvalidKeyShare)));
    }
}

#[test]
fn garbage_share_of_right_length_is_invalid_key_share() {
    let group = X25519MLKEM768;
    let share = vec![0xffu8; COMBINED_PUBKEY_LEN];
    let r = group.start_and_complete(&share);
    assert!(matches!(r, Err(KxError::InvalidKeyShare)));
}

#[test]
fn tampered_ciphertext_never_completes_matching_secret() {
    let group = X25519MLKEM768;
    let mut position = 0usize;
    while position < COMBINED_CIPHERTEXT_LEN {
        let initiator = group.start().unwrap();
        let done = group.start_and_complete(initiator.pub_key()).unwrap();
        let mut tampered = done.pub_key.clone();
        tampered[position] ^= 0x01;
        match initiator.complete(&tampered) {
            Ok(secret) => assert_ne!(secret.0, done.secret.0, "position {}", position),
            Err(e) => assert_eq!(e, KxError::InvalidKeyShare),
        }
        position += 31;
    }
}

#[test]
fn tampered_ciphertext_boundary_bytes() {
    let group = X25519MLKEM768;
    for position in [
        0usize,
        1087,
        1088,
        COMBINED_CIPHERTEXT_LEN - 1,
    ] {
        let initiator = group.start().unwrap();
        let done = group.start_and_complete(initiator.pub_key()).unwrap();
        let mut tampered = done.pub_key.clone();
        tampered[position] ^= 0x01;
        match initiator.complete(&tampered) {
            Ok(secret) => assert_ne!(secret.0, done.secret.0, "position {}", position),
            Err(e) => assert_eq!(e, KxError::InvalidKeyShare),
        }
    }
}

#[test]
fn usable_only_for_tls13() {
    let group = X25519MLKEM768;
    assert!(group.usable_for_version(TLS13_VERSION));
    for version in [0x0000u16, 0x0301, 0x0302, 0x0303, 0x0305, 0xfeff, 0xffff] {
        assert!(!group.usable_for_version(version));
    }
}

#[test]
fn name_is_the_fixed_group_code() {
    let group = X25519MLKEM768;
    assert_eq!(group.name(), 0x11ec);
    let initiator = group.start().unwrap();
    assert_eq!(initiator.group(), 0x11ec);
}
