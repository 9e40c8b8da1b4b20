use rustls_post_quantum::{
    CombinedSecret, CombinedShare, ReceivedCiphertext, ReceivedShare, COMBINED_CIPHERTEXT_LEN,
    COMBINED_PUBKEY_LEN, COMBINED_SHARED_SECRET_LEN, MLKEM768_CIPHERTEXT_LEN, MLKEM768_ENCAP_LEN,
    MLKEM768_SECRET_LEN, X25519_LEN,
};

#[test]
fn share_rejects_every_wrong_length() {
    for len in [
        0usize,
        1,
        X25519_LEN,
        MLKEM768_ENCAP_LEN,
        COMBINED_PUBKEY_LEN - 1,
        COMBINED_PUBKEY_LEN + 1,
        4 * COMBINED_PUBKEY_LEN,
    ] {
        let buf = vec![0x5au8; len];
        assert!(ReceivedShare::new(&buf).is_none(), "length {} accepted", len);
    }
}

#[test]
fn share_accepts_exact_length() {
    let buf = vec![0x5au8; COMBINED_PUBKEY_LEN];
    assert!(ReceivedShare::new(&buf).is_some());
}

#[test]
fn ciphertext_rejects_every_wrong_length() {
    for len in [
        0usize,
        1,
        X25519_LEN,
        MLKEM768_CIPHERTEXT_LEN,
        COMBINED_CIPHERTEXT_LEN - 1,
        COMBINED_CIPHERTEXT_LEN + 1,
        4 * COMBINED_CIPHERTEXT_LEN,
    ] {
        let buf = vec![0x5au8; len];
        assert!(
            ReceivedCiphertext::new(&buf).is_none(),
            "length {} accepted",
            len
        );
    }
}

#[test]
fn ciphertext_accepts_exact_length() {
    let buf = vec![0x5au8; COMBINED_CIPHERTEXT_LEN];
    assert!(ReceivedCiphertext::new(&buf).is_some());
}

#[test]
fn share_splits_at_fixed_offset() {
    let mut buf = vec![0xaau8; MLKEM768_ENCAP_LEN];
    buf.extend(vec![0xbbu8; X25519_LEN]);
    let share = ReceivedShare::new(&buf).unwrap();
    assert_eq!(share.ml_kem, vec![0xaau8; MLKEM768_ENCAP_LEN]);
    assert_eq!(share.x25519, vec![0xbbu8; X25519_LEN]);
}

#[test]
fn ciphertext_splits_at_fixed_offset() {
    let mut buf = vec![0xccu8; MLKEM768_CIPHERTEXT_LEN];
    buf.extend(vec![0xddu8; X25519_LEN]);
    let ct = ReceivedCiphertext::new(&buf).unwrap();
    assert_eq!(ct.ml_kem, vec![0xccu8; MLKEM768_CIPHERTEXT_LEN]);
    assert_eq!(ct.x25519, vec![0xddu8; X25519_LEN]);
}

#[test]
fn encoded_ciphertext_keeps_kem_first() {
    let x25519 = vec![0x11u8; X25519_LEN];
    let ml_kem = vec![0x22u8; MLKEM768_CIPHERTEXT_LEN];
    let combined = CombinedShare::combine(&x25519, &ml_kem);
    assert_eq!(combined.0.len(), COMBINED_CIPHERTEXT_LEN);
    assert_eq!(&combined.0[..MLKEM768_CIPHERTEXT_LEN], &ml_kem[..]);
    assert_eq!(&combined.0[MLKEM768_CIPHERTEXT_LEN..], &x25519[..]);
}

#[test]
fn encoded_ciphertext_round_trips() {
    let mut x25519 = Vec::new();
    for i in 0..X25519_LEN {
        x25519.push(i as u8);
    }
    let mut ml_kem = Vec::new();
    for i in 0..MLKEM768_CIPHERTEXT_LEN {
        ml_kem.push((i % 251) as u8);
    }
    let combined = CombinedShare::combine(&x25519, &ml_kem);
    let decoded = ReceivedCiphertext::new(&combined.0).unwrap();
    assert_eq!(decoded.ml_kem, ml_kem);
    assert_eq!(decoded.x25519, x25519);
}

#[test]
fn combined_secret_keeps_kem_low_classical_high() {
    let x25519 = vec![0x33u8; X25519_LEN];
    let ml_kem = vec![0x44u8; MLKEM768_SECRET_LEN];
    let secret = CombinedSecret::combine(&x25519, &ml_kem);
    assert_eq!(secret.0.len(), COMBINED_SHARED_SECRET_LEN);
    assert_eq!(&secret.0[..MLKEM768_SECRET_LEN], &ml_kem[..]);
    assert_eq!(&secret.0[MLKEM768_SECRET_LEN..], &x25519[..]);
}

#[test]
fn combined_secret_layout_ignores_argument_roles() {
    let mut a = Vec::new();
    let mut b = Vec::new();
    for i in 0..32usize {
        a.push(i as u8);
        b.push((255 - i) as u8);
    }
    let one = CombinedSecret::combine(&a, &b);
    let two = CombinedSecret::combine(&b, &a);
    assert_eq!(&one.0[..32], &b[..]);
    assert_eq!(&one.0[32..], &a[..]);
    assert_eq!(&two.0[..32], &a[..]);
    assert_eq!(&two.0[32..], &b[..]);
}
