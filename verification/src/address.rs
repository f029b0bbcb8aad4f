//! Deterministic derivation of program-owned addresses.
//!
//! Starting from a bump value of 255 and decrementing toward 0, the seeds,
//! the bump, the owning program id and a fixed domain-separation tag are
//! hashed with SHA-256; the first hash that is not a point on the Ed25519
//! curve is the derived address.  Off-curve is required so that no private
//! key can exist for the address.  The search is pure: identical inputs
//! always yield the identical address.

use vstd::prelude::*;

use crate::errors::CoreError;
use crate::keys::{clone_bytes, push_all, PublicKey};

verus! {

/// The 32-byte SHA-256 digest of the data.
pub uninterp spec fn sha256_of(data: Seq<u8>) -> Seq<u8>;

/// Whether the 32 bytes decompress to a point on the Ed25519 curve.
pub uninterp spec fn on_curve(point: Seq<u8>) -> bool;

/// Relies on `solana_sdk::hash::hash`: the SHA-256 digest, 32 bytes.
#[verifier::external_body]
fn sha256(data: &Vec<u8>) -> (r: Vec<u8>)
    ensures
        r@ == sha256_of(data@),
        r@.len() == 32,
{
    solana_sdk::hash::hash(data.as_slice()).to_bytes().to_vec()
}

/// Relies on `solana_sdk::pubkey::Pubkey::is_on_curve`: whether 32 bytes
/// decompress to an Ed25519 curve point.
#[verifier::external_body]
fn is_on_curve_bytes(point: &Vec<u8>) -> (r: bool)
    requires
        point@.len() == 32,
    ensures
        r == on_curve(point@),
{
    let arr: [u8; 32] = point.as_slice().try_into().unwrap();
    solana_sdk::pubkey::Pubkey::from(arr).is_on_curve()
}

/// The domain-separation tag appended to every derivation hash input: the
/// ASCII bytes of "ProgramDerivedAddress".
pub open spec fn pda_marker() -> Seq<u8> {
    seq![
        80u8, 114, 111, 103, 114, 97, 109, 68, 101, 114, 105, 118, 101, 100, 65, 100, 100, 114,
        101, 115, 115,
    ]
}

fn pda_marker_bytes() -> (v: Vec<u8>)
    ensures
        v@ == pda_marker(),
{
    let mut v: Vec<u8> = Vec::new();
    v.push(80);
    v.push(114);
    v.push(111);
    v.push(103);
    v.push(114);
    v.push(97);
    v.push(109);
    v.push(68);
    v.push(101);
    v.push(114);
    v.push(105);
    v.push(118);
    v.push(101);
    v.push(100);
    v.push(65);
    v.push(100);
    v.push(100);
    v.push(114);
    v.push(101);
    v.push(115);
    v.push(115);
    proof {
        assert(v@ =~= pda_marker());
    }
    v
}

/// The views of a vector of seed vectors.
pub open spec fn views_of(seeds: Seq<Vec<u8>>) -> Seq<Seq<u8>> {
    Seq::new(seeds.len(), |i: int| seeds[i]@)
}

/// All seed byte sequences, concatenated in order.
pub open spec fn concat_seeds(seeds: Seq<Seq<u8>>) -> Seq<u8>
    decreases seeds.len(),
{
    if seeds.len() == 0 {
        Seq::empty()
    } else {
        concat_seeds(seeds.drop_last()) + seeds.last()
    }
}

fn concat_seeds_exec(seeds: &Vec<Vec<u8>>) -> (r: Vec<u8>)
    ensures
        r@ == concat_seeds(views_of(seeds@)),
{
    let ghost sv = views_of(seeds@);
    let mut r: Vec<u8> = Vec::new();
    proof {
        assert(sv.take(0).len() == 0);
    }
    let mut i: usize = 0;
    while i < seeds.len()
        invariant
            i <= seeds@.len(),
            sv == views_of(seeds@),
            sv.len() == seeds@.len(),
            r@ == concat_seeds(sv.take(i as int)),
        decreases seeds@.len() - i,
    {
        push_all(&mut r, &seeds[i]);
        proof {
            assert(sv.take(i + 1).drop_last() =~= sv.take(i as int));
            assert(sv.take(i + 1).last() == seeds@[i as int]@);
        }
        i = i + 1;
    }
    proof {
        assert(sv.take(sv.len() as int) =~= sv);
    }
    r
}

/// The exact byte sequence hashed for one bump value: seeds, then the bump,
/// then the owning program id, then the domain-separation tag.
pub open spec fn pda_input(seeds: Seq<Seq<u8>>, bump: u8, program: Seq<u8>) -> Seq<u8> {
    concat_seeds(seeds) + seq![bump] + program + pda_marker()
}

/// The candidate address for one bump value.
pub open spec fn pda_hash(seeds: Seq<Seq<u8>>, bump: u8, program: Seq<u8>) -> Seq<u8> {
    sha256_of(pda_input(seeds, bump, program))
}

/// The derivation outcome when the search starts at `bump` and decrements:
/// the candidate of the first bump whose hash is off-curve, or `None` when
/// every candidate down to 0 lies on the curve.
pub open spec fn derive_from(seeds: Seq<Seq<u8>>, program: Seq<u8>, bump: int) -> Option<Seq<u8>>
    decreases bump + 1,
{
    if bump < 0 {
        None
    } else if !on_curve(pda_hash(seeds, bump as u8, program)) {
        Some(pda_hash(seeds, bump as u8, program))
    } else {
        derive_from(seeds, program, bump - 1)
    }
}

/// The derived address for the seeds under the owning program id: the search
/// starts at bump 255.
pub open spec fn derive_spec(seeds: Seq<Seq<u8>>, program: Seq<u8>) -> Option<Seq<u8>> {
    derive_from(seeds, program, 255)
}

/// When every candidate above `bump` lies on the curve, the search from 255
/// reaches the same outcome as the search from `bump`.
proof fn lemma_derive_skip(seeds: Seq<Seq<u8>>, program: Seq<u8>, bump: int)
    requires
        -1 <= bump <= 255,
        forall|b: int| bump < b <= 255 ==> on_curve(#[trigger] pda_hash(seeds, b as u8, program)),
    ensures
        derive_from(seeds, program, 255) == derive_from(seeds, program, bump),
    decreases 255 - bump,
{
    if bump < 255 {
        lemma_derive_skip(seeds, program, bump + 1);
        assert(on_curve(pda_hash(seeds, (bump + 1) as u8, program)));
    }
}

/// Derives the program-owned address for the seeds under the owning program
/// id.  Pure and deterministic; the result is never an Ed25519 curve point;
/// when all 256 bump values yield on-curve hashes the search reports
/// `NoAddressFound`.
pub fn derive_address(seeds: &Vec<Vec<u8>>, program_id: &PublicKey) -> (r: Result<
    PublicKey,
    CoreError,
>)
    ensures
        r matches Ok(pk) ==> {
            &&& derive_spec(views_of(seeds@), program_id@) == Some(pk@)
            &&& pk.wf()
            &&& !on_curve(pk@)
        },
        r is Err ==> {
            &&& derive_spec(views_of(seeds@), program_id@) is None
            &&& r == Err::<PublicKey, CoreError>(CoreError::NoAddressFound)
        },
{
    let ghost sv = views_of(seeds@);
    let prefix = concat_seeds_exec(seeds);
    let marker = pda_marker_bytes();
    let mut i: u16 = 0;
    while i < 256
        invariant
            i <= 256,
            sv == views_of(seeds@),
            prefix@ == concat_seeds(sv),
            marker@ == pda_marker(),
            forall|b: int|
                256 - i <= b <= 255 ==> on_curve(#[trigger] pda_hash(sv, b as u8, program_id@)),
        decreases 256 - i,
    {
        let bump: u8 = (255 - i) as u8;
        let mut input = clone_bytes(&prefix);
        input.push(bump);
        push_all(&mut input, &program_id.bytes);
        push_all(&mut input, &marker);
        proof {
            assert(input@ =~= pda_input(sv, bump, program_id@));
        }
        let h = sha256(&input);
        if !is_on_curve_bytes(&h) {
            proof {
                lemma_derive_skip(sv, program_id@, bump as int);
            }
            return Ok(PublicKey { bytes: h });
        }
        i = i + 1;
    }
    proof {
        lemma_derive_skip(sv, program_id@, -1);
    }
    Err(CoreError::NoAddressFound)
}

/// Derivation is deterministic: two outcomes for the same seeds and program
/// id are identical.
pub proof fn lemma_derive_deterministic(
    seeds: Seq<Seq<u8>>,
    program: Seq<u8>,
    r1: Option<Seq<u8>>,
    r2: Option<Seq<u8>>,
)
    requires
        r1 == derive_spec(seeds, program),
        r2 == derive_spec(seeds, program),
    ensures
        r1 == r2,
{
}

/// The id of the token program whose asset accounts this service derives.
pub open spec fn token_program_id() -> Seq<u8> {
    seq![
        6u8, 221, 246, 225, 215, 101, 161, 147, 217, 203, 225, 70, 206, 235, 121, 172, 28, 180,
        133, 237, 95, 91, 55, 145, 58, 140, 245, 133, 126, 255, 0, 169,
    ]
}

/// The id of the associated-account program under which asset accounts are
/// derived.
pub open spec fn associated_program_id() -> Seq<u8> {
    seq![
        140u8, 151, 37, 143, 78, 36, 137, 241, 187, 61, 16, 41, 20, 142, 13, 131, 11, 90, 19, 153,
        218, 255, 16, 132, 4, 142, 123, 216, 219, 233, 248, 89,
    ]
}

fn push_token_program_id(v: &mut Vec<u8>)
    requires
        old(v)@.len() == 0,
    ensures
        final(v)@ == token_program_id(),
{
    v.push(6);
    v.push(221);
    v.push(246);
    v.push(225);
    v.push(215);
    v.push(101);
    v.push(161);
    v.push(147);
    v.push(217);
    v.push(203);
    v.push(225);
    v.push(70);
    v.push(206);
    v.push(235);
    v.push(121);
    v.push(172);
    v.push(28);
    v.push(180);
    v.push(133);
    v.push(237);
    v.push(95);
    v.push(91);
    v.push(55);
    v.push(145);
    v.push(58);
    v.push(140);
    v.push(245);
    v.push(133);
    v.push(126);
    v.push(255);
    v.push(0);
    v.push(169);
    proof {
        assert(v@ =~= token_program_id());
    }
}

/// The token program id as a key value.
pub fn token_program_key() -> (pk: PublicKey)
    ensures
        pk@ == token_program_id(),
        pk.wf(),
{
    let mut bytes: Vec<u8> = Vec::new();
    push_token_program_id(&mut bytes);
    PublicKey { bytes }
}

/// The associated-account program id as a key value.
pub fn associated_program_key() -> (pk: PublicKey)
    ensures
        pk@ == associated_program_id(),
        pk.wf(),
{
    let mut bytes: Vec<u8> = Vec::new();
    bytes.push(140);
    bytes.push(151);
    bytes.push(37);
    bytes.push(143);
    bytes.push(78);
    bytes.push(36);
    bytes.push(137);
    bytes.push(241);
    bytes.push(187);
    bytes.push(61);
    bytes.push(16);
    bytes.push(41);
    bytes.push(20);
    bytes.push(142);
    bytes.push(13);
    bytes.push(131);
    bytes.push(11);
    bytes.push(90);
    bytes.push(19);
    bytes.push(153);
    bytes.push(218);
    bytes.push(255);
    bytes.push(16);
    bytes.push(132);
    bytes.push(4);
    bytes.push(142);
    bytes.push(123);
    bytes.push(216);
    bytes.push(219);
    bytes.push(233);
    bytes.push(248);
    bytes.push(89);
    proof {
        assert(bytes@ =~= associated_program_id());
    }
    PublicKey { bytes }
}

/// The derivation seeds that locate an owner's associated account for an
/// asset: the owner key, the token program id, and the asset (mint) key.
pub open spec fn associated_seeds(owner: Seq<u8>, mint: Seq<u8>) -> Seq<Seq<u8>> {
    seq![owner, token_program_id(), mint]
}

/// The address of the account that holds `owner`'s balance of `mint`,
/// derived under the associated-account program.
pub fn associated_address(owner: &PublicKey, mint: &PublicKey) -> (r: Result<PublicKey, CoreError>)
    ensures
        r matches Ok(pk) ==> {
            &&& derive_spec(associated_seeds(owner@, mint@), associated_program_id()) == Some(pk@)
            &&& pk.wf()
            &&& !on_curve(pk@)
        },
        r is Err ==> {
            &&& derive_spec(associated_seeds(owner@, mint@), associated_program_id()) is None
            &&& r == Err::<PublicKey, CoreError>(CoreError::NoAddressFound)
        },
{
    let mut seeds: Vec<Vec<u8>> = Vec::new();
    seeds.push(clone_bytes(&owner.bytes));
    seeds.push(token_program_key().bytes);
    seeds.push(clone_bytes(&mint.bytes));
    proof {
        assert(views_of(seeds@) =~= associated_seeds(owner@, mint@));
    }
    derive_address(&seeds, &associated_program_key())
}

} // verus!
