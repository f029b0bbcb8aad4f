//! Ed25519 key material: 32-byte public keys, keypairs, generation, and
//! reconstruction of a keypair from its 64-byte secret form.

use vstd::prelude::*;

use crate::codec::{base58_decode, base58_encode, base58_of};
use crate::errors::CoreError;
use solana_sdk::signer::Signer;

verus! {

/// The 32-byte Ed25519 public key that key derivation yields for the given
/// 32-byte secret seed.
pub uninterp spec fn ed25519_pubkey_of(seed: Seq<u8>) -> Seq<u8>;

/// A 32-byte public key of the target ledger: either the public half of an
/// Ed25519 keypair or a derived, program-owned address.
#[derive(Debug, PartialEq, Eq)]
pub struct PublicKey {
    pub bytes: Vec<u8>,
}

impl View for PublicKey {
    type V = Seq<u8>;

    open spec fn view(&self) -> Seq<u8> {
        self.bytes@
    }
}

impl PublicKey {
    /// A public key is exactly 32 bytes.
    pub open spec fn wf(&self) -> bool {
        self@.len() == 32
    }

    pub fn clone_key(&self) -> (r: PublicKey)
        ensures
            r@ == self@,
    {
        let bytes = clone_bytes(&self.bytes);
        PublicKey { bytes }
    }

    /// The base58 text form of this key.
    pub fn to_base58(&self) -> (r: String)
        ensures
            r@ == base58_of(self@),
    {
        base58_encode(&self.bytes)
    }

    /// Parses a key from base58 text; fails on malformed text and on any
    /// decoded length other than 32.
    pub fn from_base58(s: &str) -> (r: Result<PublicKey, CoreError>)
        ensures
            r matches Ok(pk) ==> pk.wf() && s@ == base58_of(pk@),
            r matches Ok(pk) ==> forall|w: Seq<u8>|
                #![trigger base58_of(w)]
                base58_of(w) == s@ ==> w == pk@,
            (exists|w: Seq<u8>|
                #![trigger base58_of(w)]
                base58_of(w) == s@ && w.len() == 32) ==> r is Ok,
            r is Err ==> r == Err::<PublicKey, CoreError>(CoreError::InvalidEncoding),
    {
        match base58_decode(s) {
            Ok(bytes) => {
                if bytes.len() == 32 {
                    Ok(PublicKey { bytes })
                } else {
                    Err(CoreError::InvalidEncoding)
                }
            },
            Err(_) => Err(CoreError::InvalidEncoding),
        }
    }
}

/// An Ed25519 keypair: the 32-byte secret seed together with the public key
/// derived from it.  Created per request and never persisted.
#[derive(Debug, PartialEq, Eq)]
pub struct Keypair {
    pub secret: Vec<u8>,
    pub public: Vec<u8>,
}

/// The canonical 64-byte secret form of a keypair: secret seed followed by
/// the public key that derivation yields for that seed.
pub open spec fn valid_secret_bytes(b: Seq<u8>) -> bool {
    &&& b.len() == 64
    &&& b.subrange(32, 64) == ed25519_pubkey_of(b.subrange(0, 32))
}

impl Keypair {
    /// Both halves are 32 bytes and the public half is the one derived from
    /// the secret half.
    pub open spec fn wf(&self) -> bool {
        &&& self.secret@.len() == 32
        &&& self.public@.len() == 32
        &&& self.public@ == ed25519_pubkey_of(self.secret@)
    }

    /// The spec-level 64-byte secret form.
    pub open spec fn secret_bytes_spec(&self) -> Seq<u8> {
        self.secret@ + self.public@
    }

    /// The 64-byte secret form: secret seed followed by public key.
    pub fn secret_bytes(&self) -> (r: Vec<u8>)
        ensures
            r@ == self.secret_bytes_spec(),
    {
        let mut r = clone_bytes(&self.secret);
        push_all(&mut r, &self.public);
        r
    }

    /// The public half as a key value.
    pub fn public_key(&self) -> (r: PublicKey)
        ensures
            r@ == self.public@,
    {
        let bytes = clone_bytes(&self.public);
        PublicKey { bytes }
    }
}

/// Relies on `solana_sdk::signer::keypair::Keypair::new` and `to_bytes`:
/// draws a fresh keypair from the system's entropy source; its 64-byte form
/// is the secret seed followed by the public key derived from that seed.
#[verifier::external_body]
fn generate_keypair_bytes() -> (r: Vec<u8>)
    ensures
        valid_secret_bytes(r@),
{
    solana_sdk::signer::keypair::Keypair::new().to_bytes().to_vec()
}

/// Relies on `solana_sdk::signer::keypair::keypair_from_seed`: derives the
/// Ed25519 public key belonging to a 32-byte secret seed.
#[verifier::external_body]
fn derive_public_key(seed: &Vec<u8>) -> (r: Vec<u8>)
    requires
        seed@.len() == 32,
    ensures
        r@ == ed25519_pubkey_of(seed@),
        r@.len() == 32,
{
    let kp = solana_sdk::signer::keypair::keypair_from_seed(seed.as_slice()).unwrap();
    kp.pubkey().to_bytes().to_vec()
}

/// Generates a fresh keypair from the entropy source.
pub fn generate() -> (r: Keypair)
    ensures
        r.wf(),
{
    let bytes = generate_keypair_bytes();
    let secret = copy_range(&bytes, 0, 32);
    let public = copy_range(&bytes, 32, 64);
    Keypair { secret, public }
}

/// Reconstructs a keypair from its 64-byte secret form.  Accepts exactly the
/// well-formed forms: 64 bytes whose second half equals the public key
/// derived from the first half; everything else is an `InvalidKey` failure.
pub fn from_secret_bytes(bytes: &Vec<u8>) -> (r: Result<Keypair, CoreError>)
    ensures
        r matches Ok(kp) ==> {
            &&& valid_secret_bytes(bytes@)
            &&& kp.wf()
            &&& kp.secret@ == bytes@.subrange(0, 32)
            &&& kp.public@ == bytes@.subrange(32, 64)
        },
        valid_secret_bytes(bytes@) ==> r is Ok,
        !valid_secret_bytes(bytes@) ==> r == Err::<Keypair, CoreError>(CoreError::InvalidKey),
{
    if bytes.len() != 64 {
        return Err(CoreError::InvalidKey);
    }
    let secret = copy_range(bytes, 0, 32);
    let embedded = copy_range(bytes, 32, 64);
    let derived = derive_public_key(&secret);
    if bytes_eq(&embedded, &derived) {
        Ok(Keypair { secret, public: embedded })
    } else {
        Err(CoreError::InvalidKey)
    }
}

/// A generated keypair round-trips through its 64-byte secret form: the form
/// is accepted by reconstruction and yields back the same secret and public
/// halves, byte for byte.
pub proof fn lemma_secret_bytes_round_trip(kp: Keypair)
    requires
        kp.wf(),
    ensures
        valid_secret_bytes(kp.secret_bytes_spec()),
        kp.secret_bytes_spec().subrange(0, 32) == kp.secret@,
        kp.secret_bytes_spec().subrange(32, 64) == kp.public@,
{
    assert(kp.secret_bytes_spec().subrange(0, 32) =~= kp.secret@);
    assert(kp.secret_bytes_spec().subrange(32, 64) =~= kp.public@);
}

/// Copies the bytes of `src` in `[start, end)` into a fresh vector.
pub(crate) fn copy_range(src: &Vec<u8>, start: usize, end: usize) -> (r: Vec<u8>)
    requires
        start <= end <= src@.len(),
    ensures
        r@ == src@.subrange(start as int, end as int),
{
    let mut r: Vec<u8> = Vec::new();
    let mut i: usize = start;
    while i < end
        invariant
            start <= i <= end <= src@.len(),
            r@ == src@.subrange(start as int, i as int),
        decreases end - i,
    {
        r.push(src[i]);
        proof {
            assert(r@ =~= src@.subrange(start as int, (i + 1) as int));
        }
        i = i + 1;
    }
    r
}

/// Copies a whole byte vector.
pub(crate) fn clone_bytes(src: &Vec<u8>) -> (r: Vec<u8>)
    ensures
        r@ == src@,
{
    let r = copy_range(src, 0, src.len());
    proof {
        assert(src@.subrange(0, src@.len() as int) =~= src@);
    }
    r
}

/// Appends all bytes of `src` to `dst`.
pub(crate) fn push_all(dst: &mut Vec<u8>, src: &Vec<u8>)
    ensures
        final(dst)@ == old(dst)@ + src@,
{
    let mut i: usize = 0;
    while i < src.len()
        invariant
            i <= src@.len(),
            dst@ == old(dst)@ + src@.subrange(0, i as int),
        decreases src@.len() - i,
    {
        dst.push(src[i]);
        proof {
            assert(dst@ =~= old(dst)@ + src@.subrange(0, (i + 1) as int));
        }
        i = i + 1;
    }
    proof {
        assert(old(dst)@ + src@.subrange(0, src@.len() as int) =~= old(dst)@ + src@);
    }
}

/// Byte-exact comparison of two byte vectors.
pub(crate) fn bytes_eq(a: &Vec<u8>, b: &Vec<u8>) -> (r: bool)
    ensures
        r == (a@ == b@),
{
    if a.len() != b.len() {
        proof {
            assert(a@.len() != b@.len());
        }
        return false;
    }
    let mut i: usize = 0;
    while i < a.len()
        invariant
            i <= a@.len(),
            a@.len() == b@.len(),
            forall|j: int| 0 <= j < i ==> a@[j] == b@[j],
        decreases a@.len() - i,
    {
        if a[i] != b[i] {
            return false;
        }
        i = i + 1;
    }
    proof {
        assert(a@ =~= b@);
    }
    true
}

} // verus!
