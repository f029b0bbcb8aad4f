use rusty_proc::errors::CoreError;
use rusty_proc::keys::{from_secret_bytes, generate, PublicKey};
use solana_sdk::signer::Signer;

#[test]
fn generated_keypair_round_trips_through_secret_bytes() {
    let kp = generate();
    let bytes = kp.secret_bytes();
    assert_eq!(bytes.len(), 64);
    let back = from_secret_bytes(&bytes).expect("well-formed secret bytes must be accepted");
    assert_eq!(back.secret, kp.secret);
    assert_eq!(back.public, kp.public);
}

#[test]
fn generated_keypair_matches_outside_derivation() {
    let kp = generate();
    let outside = solana_sdk::signer::keypair::keypair_from_seed(&kp.secret)
        .expect("32-byte seed");
    assert_eq!(outside.pubkey().to_bytes().to_vec(), kp.public);
}

#[test]
fn short_secret_bytes_are_invalid_key() {
    let bytes = vec![7u8; 63];
    assert_eq!(from_secret_bytes(&bytes), Err(CoreError::InvalidKey));
}

#[test]
fn long_secret_bytes_are_invalid_key() {
    let bytes = vec![7u8; 65];
    assert_eq!(from_secret_bytes(&bytes), Err(CoreError::InvalidKey));
}

#[test]
fn tampered_public_half_is_invalid_key() {
    let kp = generate();
    let mut bytes = kp.secret_bytes();
    bytes[40] ^= 0x01;
    assert_eq!(from_secret_bytes(&bytes), Err(CoreError::InvalidKey));
}

#[test]
fn public_key_base58_matches_outside_encoding() {
    let kp = generate();
    let ours = kp.public_key().to_base58();
    let outside = bs58::encode(&kp.public).into_string();
    assert_eq!(ours, outside);
    let solana_text = solana_sdk::pubkey::Pubkey::new_from_array(
        <[u8; 32]>::try_from(kp.public.as_slice()).unwrap(),
    )
    .to_string();
    assert_eq!(ours, solana_text);
}

#[test]
fn public_key_base58_round_trips() {
    let kp = generate();
    let text = kp.public_key().to_base58();
    let back = PublicKey::from_base58(&text).expect("canonical text must parse");
    assert_eq!(back.bytes, kp.public);
}

#[test]
fn malformed_base58_is_rejected() {
    assert_eq!(
        PublicKey::from_base58("not base58 0OIl").map(|pk| pk.bytes),
        Err(CoreError::InvalidEncoding)
    );
}

#[test]
fn wrong_length_base58_is_rejected() {
    let text = bs58::encode(&[5u8; 31]).into_string();
    assert_eq!(
        PublicKey::from_base58(&text).map(|pk| pk.bytes),
        Err(CoreError::InvalidEncoding)
    );
}
