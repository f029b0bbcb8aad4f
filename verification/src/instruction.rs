//! Assembly of ledger instruction descriptors: a program id, an ordered list
//! of account roles, and an opaque binary payload in the exact layout the
//! target programs expect.
//!
//! The role order of each descriptor is a fixed contract the consuming
//! runtime depends on, and every amount-bearing operation uniformly rejects
//! a zero amount.

use vstd::prelude::*;

use crate::address::{
    associated_address, associated_program_id, associated_seeds, derive_spec, token_program_id,
    token_program_key,
};
use crate::errors::CoreError;
use crate::keys::{push_all, PublicKey};
use vstd::bytes::{spec_u64_to_le_bytes, u64_to_le_bytes};

verus! {

/// One account's required authorization when an instruction executes.
pub struct AccountRole {
    pub key: PublicKey,
    pub is_signer: bool,
    pub is_writable: bool,
}

impl AccountRole {
    pub open spec fn wf(&self) -> bool {
        self.key.wf()
    }
}

/// A fully assembled instruction: the program to invoke, the ordered account
/// roles, and the opaque payload bytes.  Immutable once built.
pub struct InstructionDescriptor {
    pub program_id: PublicKey,
    pub roles: Vec<AccountRole>,
    pub payload: Vec<u8>,
}

impl InstructionDescriptor {
    pub open spec fn wf(&self) -> bool {
        &&& self.program_id.wf()
        &&& forall|i: int| 0 <= i < self.roles@.len() ==> (#[trigger] self.roles@[i]).wf()
    }
}

/// The id of the system program that executes value transfers: 32 zero
/// bytes.
pub open spec fn system_program_id() -> Seq<u8> {
    Seq::new(32, |i: int| 0u8)
}

/// The system program id as a key value.
pub fn system_program_key() -> (pk: PublicKey)
    ensures
        pk@ == system_program_id(),
        pk.wf(),
{
    let mut bytes: Vec<u8> = Vec::new();
    let mut i: usize = 0;
    while i < 32
        invariant
            i <= 32,
            bytes@ == Seq::new(i as nat, |j: int| 0u8),
        decreases 32 - i,
    {
        bytes.push(0);
        proof {
            assert(bytes@ =~= Seq::new((i + 1) as nat, |j: int| 0u8));
        }
        i = i + 1;
    }
    PublicKey { bytes }
}

/// The id of the rent sysvar account referenced by asset initialization.
pub open spec fn rent_sysvar_id() -> Seq<u8> {
    seq![
        6u8, 167, 213, 23, 25, 44, 92, 81, 33, 140, 201, 76, 61, 74, 241, 127, 88, 218, 238, 8,
        155, 161, 253, 68, 227, 219, 217, 138, 0, 0, 0, 0,
    ]
}

/// The rent sysvar id as a key value.
pub fn rent_sysvar_key() -> (pk: PublicKey)
    ensures
        pk@ == rent_sysvar_id(),
        pk.wf(),
{
    let mut bytes: Vec<u8> = Vec::new();
    bytes.push(6);
    bytes.push(167);
    bytes.push(213);
    bytes.push(23);
    bytes.push(25);
    bytes.push(44);
    bytes.push(92);
    bytes.push(81);
    bytes.push(33);
    bytes.push(140);
    bytes.push(201);
    bytes.push(76);
    bytes.push(61);
    bytes.push(74);
    bytes.push(241);
    bytes.push(127);
    bytes.push(88);
    bytes.push(218);
    bytes.push(238);
    bytes.push(8);
    bytes.push(155);
    bytes.push(161);
    bytes.push(253);
    bytes.push(68);
    bytes.push(227);
    bytes.push(219);
    bytes.push(217);
    bytes.push(138);
    bytes.push(0);
    bytes.push(0);
    bytes.push(0);
    bytes.push(0);
    proof {
        assert(bytes@ =~= rent_sysvar_id());
    }
    PublicKey { bytes }
}

/// The payload of a value transfer: the system program's transfer
/// discriminant (2 as little-endian u32) followed by the lamport amount as a
/// little-endian u64.
pub open spec fn value_transfer_payload(lamports: u64) -> Seq<u8> {
    seq![2u8, 0u8, 0u8, 0u8] + spec_u64_to_le_bytes(lamports)
}

/// The payload of an asset (token-to-token) transfer: discriminant 3
/// followed by the amount as a little-endian u64.
pub open spec fn asset_transfer_payload(amount: u64) -> Seq<u8> {
    seq![3u8] + spec_u64_to_le_bytes(amount)
}

/// The payload of a mint-to operation: discriminant 7 followed by the amount
/// as a little-endian u64.
pub open spec fn mint_to_payload(amount: u64) -> Seq<u8> {
    seq![7u8] + spec_u64_to_le_bytes(amount)
}

/// The payload of asset initialization: discriminant 0, the decimals, the
/// 32-byte mint authority, and a trailing 0 for the absent freeze authority.
pub open spec fn initialize_asset_payload(decimals: u8, authority: Seq<u8>) -> Seq<u8> {
    seq![0u8, decimals] + authority + seq![0u8]
}

fn role(key: PublicKey, is_signer: bool, is_writable: bool) -> (r: AccountRole)
    ensures
        r.key == key,
        r.is_signer == is_signer,
        r.is_writable == is_writable,
{
    AccountRole { key, is_signer, is_writable }
}

/// Builds a value-transfer descriptor moving `lamports` from `from` to `to`.
/// Rejects a zero amount with `InvalidAmount`; otherwise the descriptor
/// invokes the system program with roles [source, destination], both
/// writable and neither a required signer at this layer, and the transfer
/// payload.
pub fn build_value_transfer(from: &PublicKey, to: &PublicKey, lamports: u64) -> (r: Result<
    InstructionDescriptor,
    CoreError,
>)
    requires
        from.wf(),
        to.wf(),
    ensures
        lamports == 0 ==> r == Err::<InstructionDescriptor, CoreError>(CoreError::InvalidAmount),
        lamports != 0 ==> (r matches Ok(d) && {
            &&& d.wf()
            &&& d.program_id@ == system_program_id()
            &&& d.roles@.len() == 2
            &&& d.roles@[0].key@ == from@
            &&& !d.roles@[0].is_signer
            &&& d.roles@[0].is_writable
            &&& d.roles@[1].key@ == to@
            &&& !d.roles@[1].is_signer
            &&& d.roles@[1].is_writable
            &&& d.payload@ == value_transfer_payload(lamports)
        }),
{
    if lamports == 0 {
        return Err(CoreError::InvalidAmount);
    }
    let mut payload: Vec<u8> = Vec::new();
    payload.push(2);
    payload.push(0);
    payload.push(0);
    payload.push(0);
    let amount_bytes = u64_to_le_bytes(lamports);
    push_all(&mut payload, &amount_bytes);
    proof {
        assert(payload@ =~= value_transfer_payload(lamports));
    }
    let mut roles: Vec<AccountRole> = Vec::new();
    roles.push(role(from.clone_key(), false, true));
    roles.push(role(to.clone_key(), false, true));
    Ok(InstructionDescriptor { program_id: system_program_key(), roles, payload })
}

/// Builds an asset-initialization descriptor for a new mint with the given
/// authority and decimals.  The descriptor invokes the token program with
/// roles [asset (writable), rent sysvar (read-only)], neither a signer, and
/// the initialization payload carrying the authority and an absent freeze
/// authority.
pub fn build_initialize_asset(asset: &PublicKey, mint_authority: &PublicKey, decimals: u8) -> (r:
    Result<InstructionDescriptor, CoreError>)
    requires
        asset.wf(),
        mint_authority.wf(),
    ensures
        r matches Ok(d) && {
            &&& d.wf()
            &&& d.program_id@ == token_program_id()
            &&& d.roles@.len() == 2
            &&& d.roles@[0].key@ == asset@
            &&& !d.roles@[0].is_signer
            &&& d.roles@[0].is_writable
            &&& d.roles@[1].key@ == rent_sysvar_id()
            &&& !d.roles@[1].is_signer
            &&& !d.roles@[1].is_writable
            &&& d.payload@ == initialize_asset_payload(decimals, mint_authority@)
        },
{
    let mut payload: Vec<u8> = Vec::new();
    payload.push(0);
    payload.push(decimals);
    push_all(&mut payload, &mint_authority.bytes);
    payload.push(0);
    proof {
        assert(payload@ =~= initialize_asset_payload(decimals, mint_authority@));
    }
    let mut roles: Vec<AccountRole> = Vec::new();
    roles.push(role(asset.clone_key(), false, true));
    roles.push(role(rent_sysvar_key(), false, false));
    Ok(InstructionDescriptor { program_id: token_program_key(), roles, payload })
}

/// Builds a mint-to descriptor crediting `amount` of `asset` to the
/// associated account of `destination_owner`.  Rejects a zero amount with
/// `InvalidAmount`; fails with `NoAddressFound` only when the associated
/// address derivation fails; otherwise the descriptor invokes the token
/// program with roles [asset (writable), derived destination account
/// (writable), authority (signer)] and the mint-to payload.
pub fn build_mint_to(
    asset: &PublicKey,
    destination_owner: &PublicKey,
    authority: &PublicKey,
    amount: u64,
) -> (r: Result<InstructionDescriptor, CoreError>)
    requires
        asset.wf(),
        destination_owner.wf(),
        authority.wf(),
    ensures
        amount == 0 ==> r == Err::<InstructionDescriptor, CoreError>(CoreError::InvalidAmount),
        amount != 0 && derive_spec(
            associated_seeds(destination_owner@, asset@),
            associated_program_id(),
        ) is None ==> r == Err::<InstructionDescriptor, CoreError>(CoreError::NoAddressFound),
        amount != 0 ==> (derive_spec(
            associated_seeds(destination_owner@, asset@),
            associated_program_id(),
        ) matches Some(derived) ==> (r matches Ok(d) && {
            &&& d.wf()
            &&& d.program_id@ == token_program_id()
            &&& d.roles@.len() == 3
            &&& d.roles@[0].key@ == asset@
            &&& !d.roles@[0].is_signer
            &&& d.roles@[0].is_writable
            &&& d.roles@[1].key@ == derived
            &&& !d.roles@[1].is_signer
            &&& d.roles@[1].is_writable
            &&& d.roles@[2].key@ == authority@
            &&& d.roles@[2].is_signer
            &&& !d.roles@[2].is_writable
            &&& d.payload@ == mint_to_payload(amount)
        })),
{
    if amount == 0 {
        return Err(CoreError::InvalidAmount);
    }
    let destination_account = match associated_address(destination_owner, asset) {
        Ok(pk) => pk,
        Err(_) => {
            return Err(CoreError::NoAddressFound);
        },
    };
    let mut payload: Vec<u8> = Vec::new();
    payload.push(7);
    let amount_bytes = u64_to_le_bytes(amount);
    push_all(&mut payload, &amount_bytes);
    proof {
        assert(payload@ =~= mint_to_payload(amount));
    }
    let mut roles: Vec<AccountRole> = Vec::new();
    roles.push(role(asset.clone_key(), false, true));
    roles.push(role(destination_account, false, true));
    roles.push(role(authority.clone_key(), true, false));
    Ok(InstructionDescriptor { program_id: token_program_key(), roles, payload })
}

/// Builds an asset-transfer descriptor moving `amount` of `asset` between
/// the associated accounts of `source_owner` and `destination_owner`.
/// Rejects a zero amount with `InvalidAmount`; fails with `NoAddressFound`
/// only when either associated address derivation fails; otherwise the
/// descriptor invokes the token program with roles [source account
/// (writable), destination account (writable), source owner (signer)] and
/// the transfer payload.
pub fn build_asset_transfer(
    source_owner: &PublicKey,
    destination_owner: &PublicKey,
    asset: &PublicKey,
    amount: u64,
) -> (r: Result<InstructionDescriptor, CoreError>)
    requires
        source_owner.wf(),
        destination_owner.wf(),
        asset.wf(),
    ensures
        amount == 0 ==> r == Err::<InstructionDescriptor, CoreError>(CoreError::InvalidAmount),
        amount != 0 && (derive_spec(
            associated_seeds(source_owner@, asset@),
            associated_program_id(),
        ) is None || derive_spec(
            associated_seeds(destination_owner@, asset@),
            associated_program_id(),
        ) is None) ==> r == Err::<InstructionDescriptor, CoreError>(CoreError::NoAddressFound),
        amount != 0 ==> (derive_spec(
            associated_seeds(source_owner@, asset@),
            associated_program_id(),
        ) matches Some(source_derived) ==> (derive_spec(
            associated_seeds(destination_owner@, asset@),
            associated_program_id(),
        ) matches Some(destination_derived) ==> (r matches Ok(d) && {
            &&& d.wf()
            &&& d.program_id@ == token_program_id()
            &&& d.roles@.len() == 3
            &&& d.roles@[0].key@ == source_derived
            &&& !d.roles@[0].is_signer
            &&& d.roles@[0].is_writable
            &&& d.roles@[1].key@ == destination_derived
            &&& !d.roles@[1].is_signer
            &&& d.roles@[1].is_writable
            &&& d.roles@[2].key@ == source_owner@
            &&& d.roles@[2].is_signer
            &&& !d.roles@[2].is_writable
            &&& d.payload@ == asset_transfer_payload(amount)
        }))),
{
    if amount == 0 {
        return Err(CoreError::InvalidAmount);
    }
    let source_account = match associated_address(source_owner, asset) {
        Ok(pk) => pk,
        Err(_) => {
            return Err(CoreError::NoAddressFound);
        },
    };
    let destination_account = match associated_address(destination_owner, asset) {
        Ok(pk) => pk,
        Err(_) => {
            return Err(CoreError::NoAddressFound);
        },
    };
    let mut payload: Vec<u8> = Vec::new();
    payload.push(3);
    let amount_bytes = u64_to_le_bytes(amount);
    push_all(&mut payload, &amount_bytes);
    proof {
        assert(payload@ =~= asset_transfer_payload(amount));
    }
    let mut roles: Vec<AccountRole> = Vec::new();
    roles.push(role(source_account, false, true));
    roles.push(role(destination_account, false, true));
    roles.push(role(source_owner.clone_key(), true, false));
    Ok(InstructionDescriptor { program_id: token_program_key(), roles, payload })
}

} // verus!
