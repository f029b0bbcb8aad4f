//! Message signing and signature verification.
//!
//! Signing is deterministic Ed25519: the same keypair and message always
//! yield the same 64-byte signature, and a signature produced here verifies
//! under the keypair's public key.  Verification is a pure function that
//! answers `false` for wrong or structurally invalid signatures instead of
//! failing with an error.

use vstd::prelude::*;

use crate::keys::{valid_secret_bytes, Keypair, PublicKey};

verus! {

/// The deterministic Ed25519 signature over `msg` under the 32-byte secret
/// seed `seed`.
pub uninterp spec fn ed25519_sig_of(seed: Seq<u8>, msg: Seq<u8>) -> Seq<u8>;

/// Whether Ed25519 verification accepts the 64-byte signature `sig` over
/// `msg` under the 32-byte public key `pk`.
pub uninterp spec fn ed25519_verifies(sig: Seq<u8>, pk: Seq<u8>, msg: Seq<u8>) -> bool;

/// Relies on `solana_sdk::signer::keypair::Keypair::from_bytes` and
/// `sign_message`: produces the deterministic Ed25519 signature for the
/// message under the keypair's secret seed; a signature so produced is
/// accepted by verification under the keypair's public key.
#[verifier::external_body]
fn sign_secret_bytes(kp64: &Vec<u8>, msg: &Vec<u8>) -> (r: Vec<u8>)
    requires
        valid_secret_bytes(kp64@),
    ensures
        r@ == ed25519_sig_of(kp64@.subrange(0, 32), msg@),
        r@.len() == 64,
        ed25519_verifies(r@, kp64@.subrange(32, 64), msg@),
{
    let kp = solana_sdk::signer::keypair::Keypair::from_bytes(kp64.as_slice()).unwrap();
    let sig = solana_sdk::signer::Signer::sign_message(&kp, msg.as_slice());
    sig.as_ref().to_vec()
}

/// Relies on `solana_sdk::signature::Signature::verify`: Ed25519 strict
/// verification of a 64-byte signature; a malformed public key or signature
/// point yields `false`, never an error.
#[verifier::external_body]
fn verify_sig_bytes(sig: &Vec<u8>, pk: &Vec<u8>, msg: &Vec<u8>) -> (r: bool)
    requires
        sig@.len() == 64,
    ensures
        r == ed25519_verifies(sig@, pk@, msg@),
{
    let arr: [u8; 64] = sig.as_slice().try_into().unwrap();
    solana_sdk::signature::Signature::from(arr).verify(pk.as_slice(), msg.as_slice())
}

/// Signs an arbitrary byte message with a keypair.  Deterministic: the
/// result is a function of the secret seed and the message alone, and it
/// verifies under the keypair's public key.
pub fn sign(kp: &Keypair, message: &Vec<u8>) -> (sig: Vec<u8>)
    requires
        kp.wf(),
    ensures
        sig@ == ed25519_sig_of(kp.secret@, message@),
        sig@.len() == 64,
        ed25519_verifies(sig@, kp.public@, message@),
{
    let kp64 = kp.secret_bytes();
    proof {
        crate::keys::lemma_secret_bytes_round_trip(*kp);
    }
    sign_secret_bytes(&kp64, message)
}

/// Verifies a 64-byte signature against a message and a public key.  A pure
/// function: a wrong or structurally invalid signature answers `false`.
pub fn verify(signature: &Vec<u8>, public_key: &PublicKey, message: &Vec<u8>) -> (r: bool)
    requires
        signature@.len() == 64,
    ensures
        r == ed25519_verifies(signature@, public_key@, message@),
{
    verify_sig_bytes(signature, &public_key.bytes, message)
}

/// Signing is deterministic: two signatures over the same message under the
/// same secret seed are identical, byte for byte.
pub proof fn lemma_sign_deterministic(seed: Seq<u8>, msg: Seq<u8>, s1: Seq<u8>, s2: Seq<u8>)
    requires
        s1 == ed25519_sig_of(seed, msg),
        s2 == ed25519_sig_of(seed, msg),
    ensures
        s1 == s2,
{
}

} // verus!
