use rusty_proc::address::{associated_address, associated_program_key, derive_address,
    token_program_key};
use rusty_proc::keys::{generate, PublicKey};
use solana_sdk::pubkey::Pubkey;

fn key_of(bytes: Vec<u8>) -> PublicKey {
    PublicKey { bytes }
}

fn as_solana(pk: &PublicKey) -> Pubkey {
    Pubkey::new_from_array(<[u8; 32]>::try_from(pk.bytes.as_slice()).unwrap())
}

#[test]
fn program_id_constants_match_outside_crates() {
    assert_eq!(token_program_key().bytes, spl_token::id().to_bytes().to_vec());
    assert_eq!(
        associated_program_key().bytes,
        spl_associated_token_account::id().to_bytes().to_vec()
    );
}

#[test]
fn associated_address_matches_outside_derivation() {
    let owner = generate().public_key();
    let mint = generate().public_key();
    let ours = associated_address(&owner, &mint).expect("derivation must find a bump");
    let outside = spl_associated_token_account::get_associated_token_address(
        &as_solana(&owner),
        &as_solana(&mint),
    );
    assert_eq!(ours.bytes, outside.to_bytes().to_vec());
}

#[test]
fn derive_address_matches_outside_search() {
    let program = key_of(spl_token::id().to_bytes().to_vec());
    let seeds: Vec<Vec<u8>> = vec![b"metadata".to_vec(), vec![1, 2, 3]];
    let ours = derive_address(&seeds, &program).expect("derivation must find a bump");
    let (outside, _) =
        Pubkey::find_program_address(&[b"metadata", &[1, 2, 3]], &as_solana(&program));
    assert_eq!(ours.bytes, outside.to_bytes().to_vec());
}

#[test]
fn derivation_is_deterministic_and_off_curve() {
    let owner = generate().public_key();
    let mint = generate().public_key();
    let first = associated_address(&owner, &mint).expect("derivation must find a bump");
    let second = associated_address(&owner, &mint).expect("derivation must find a bump");
    assert_eq!(first.bytes, second.bytes);
    assert!(!as_solana(&first).is_on_curve());
}

#[test]
fn different_pairs_yield_different_addresses() {
    let owner_a = generate().public_key();
    let owner_b = generate().public_key();
    let mint_a = generate().public_key();
    let mint_b = generate().public_key();
    let a = associated_address(&owner_a, &mint_a).expect("derivation must find a bump");
    let b = associated_address(&owner_b, &mint_b).expect("derivation must find a bump");
    assert_ne!(a.bytes, b.bytes);
    let c = associated_address(&owner_a, &mint_b).expect("derivation must find a bump");
    assert_ne!(a.bytes, c.bytes);
}
