use rusty_proc::keys::generate;
use rusty_proc::sign::{sign, verify};
use solana_sdk::signer::Signer;

#[test]
fn signing_is_deterministic_and_verifies() {
    let kp = generate();
    let message = b"attack at dawn".to_vec();
    let s1 = sign(&kp, &message);
    let s2 = sign(&kp, &message);
    assert_eq!(s1, s2);
    assert_eq!(s1.len(), 64);
    assert!(verify(&s1, &kp.public_key(), &message));
}

#[test]
fn signature_matches_outside_signer() {
    let kp = generate();
    let message = b"cross-check".to_vec();
    let ours = sign(&kp, &message);
    let outside = solana_sdk::signer::keypair::Keypair::from_bytes(&kp.secret_bytes())
        .expect("valid keypair bytes")
        .sign_message(&message);
    assert_eq!(ours.as_slice(), outside.as_ref());
}

#[test]
fn empty_message_is_signable() {
    let kp = generate();
    let message: Vec<u8> = Vec::new();
    let sig = sign(&kp, &message);
    assert!(verify(&sig, &kp.public_key(), &message));
}

#[test]
fn flipping_a_message_bit_fails_verification() {
    let kp = generate();
    let message = b"unchanged text".to_vec();
    let sig = sign(&kp, &message);
    for byte in 0..message.len() {
        for bit in 0..8u8 {
            let mut tampered = message.clone();
            tampered[byte] ^= 1 << bit;
            assert!(!verify(&sig, &kp.public_key(), &tampered));
        }
    }
}

#[test]
fn flipping_a_signature_bit_fails_verification() {
    let kp = generate();
    let message = b"unchanged text".to_vec();
    let sig = sign(&kp, &message);
    for byte in 0..sig.len() {
        let mut tampered = sig.clone();
        tampered[byte] ^= 0x01;
        assert!(!verify(&tampered, &kp.public_key(), &message));
    }
}

#[test]
fn substituted_public_key_fails_verification() {
    let kp = generate();
    let other = generate();
    let message = b"who signed this".to_vec();
    let sig = sign(&kp, &message);
    assert!(!verify(&sig, &other.public_key(), &message));
}
