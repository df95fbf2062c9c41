use webauthn_demo::keygen::{is_all_zero, Keygen, KeygenError};

#[test]
fn derivation_is_deterministic() {
    let keygen = Keygen::new();
    let secret = [7u8; 32];
    let did = b"did:example:alice";
    let first = match keygen.generate(&secret, did) {
        Ok(key) => key,
        Err(_) => panic!("derivation must succeed for this secret"),
    };
    let second = match keygen.generate(&secret, did) {
        Ok(key) => key,
        Err(_) => panic!("derivation must succeed for this secret"),
    };
    assert_eq!(first.scalar, second.scalar);
    assert_eq!(first.round, second.round);
}

#[test]
fn distinct_identities_give_distinct_keys() {
    let keygen = Keygen::new();
    let secret = [7u8; 32];
    let alice = match keygen.generate(&secret, b"did:example:alice") {
        Ok(key) => key,
        Err(_) => panic!("derivation must succeed for this secret"),
    };
    let bob = match keygen.generate(&secret, b"did:example:bob") {
        Ok(key) => key,
        Err(_) => panic!("derivation must succeed for this secret"),
    };
    assert_ne!(alice.scalar, bob.scalar);
}

#[test]
fn distinct_secrets_give_distinct_keys() {
    let keygen = Keygen::new();
    let did = b"did:example:alice";
    let one = match keygen.generate(&[1u8; 32], did) {
        Ok(key) => key,
        Err(_) => panic!("derivation must succeed for this secret"),
    };
    let two = match keygen.generate(&[2u8; 32], did) {
        Ok(key) => key,
        Err(_) => panic!("derivation must succeed for this secret"),
    };
    assert_ne!(one.scalar, two.scalar);
}

#[test]
fn zero_secret_never_yields_degenerate_key() {
    let keygen = Keygen::new();
    let secret = [0u8; 32];
    match keygen.generate(&secret, b"did:example:alice") {
        Ok(key) => assert_ne!(key.scalar, [0u8; 32]),
        Err(e) => assert_eq!(e, KeygenError::Exhausted),
    }
}

#[test]
fn empty_inputs_still_derive_deterministically() {
    let keygen = Keygen::new();
    let first = match keygen.generate(&[], &[]) {
        Ok(key) => key,
        Err(_) => panic!("derivation must succeed for the empty secret"),
    };
    let second = match keygen.generate(&[], &[]) {
        Ok(key) => key,
        Err(_) => panic!("derivation must succeed for the empty secret"),
    };
    assert_eq!(first.scalar, second.scalar);
    assert_ne!(first.scalar, [0u8; 32]);
}

#[test]
fn all_zero_candidate_is_detected() {
    assert!(is_all_zero(&[0u8; 32]));
    let mut last = [0u8; 32];
    last[31] = 1;
    assert!(!is_all_zero(&last));
    let mut head = [0u8; 32];
    head[0] = 255;
    assert!(!is_all_zero(&head));
}
