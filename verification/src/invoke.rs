//! The two calls, ready to be handed to the runtime: each is an instruction
//! together with the account handles that go with it, in order.

use crate::builder::{create_instruction, create_metadata_ix, update_instruction, update_metadata_ix};
use crate::instruction::Instruction;
use crate::keys::{
    rent_sysvar_id, rent_sysvar_key, same_key, system_program_id, system_program_key,
    token_metadata_program_id, token_metadata_program_key,
};
use crate::round_trip::lemma_update_payload_round_trip;
use crate::state::{display, optional_data_view, optional_key_view, Creator, Data};
use crate::wire::{decode_create_payload, decode_update_payload, UpdateFields};
use vstd::prelude::*;

verus! {

/// The accounts that take part in creating a metadata record, each by its
/// address.
#[derive(Clone, Copy, Debug, PartialEq, Eq)]
pub struct CreateMetadata {
    /// The metadata account: the address derived from `"metadata"`, the
    /// metadata program and the mint.
    pub metadata: [u8; 32],
    /// The mint whose metadata is created.
    pub mint: [u8; 32],
    pub mint_authority: [u8; 32],
    pub payer: [u8; 32],
    /// The account that may update the metadata later.
    pub update_authority: [u8; 32],
    pub token_metadata_program: [u8; 32],
    pub system_program: [u8; 32],
    pub rent: [u8; 32],
}

/// Names one account handle of a `CreateMetadata`.
#[derive(Clone, Copy, Debug, PartialEq, Eq)]
pub enum CreateMetadataHandle {
    Metadata,
    Mint,
    MintAuthority,
    Payer,
    UpdateAuthority,
    SystemProgram,
    Rent,
}

/// The accounts that take part in updating a metadata record, each by its
/// address.
#[derive(Clone, Copy, Debug, PartialEq, Eq)]
pub struct UpdateMetadataAccount {
    pub metadata: [u8; 32],
    pub update_authority: [u8; 32],
    pub token_metadata_program: [u8; 32],
}

/// Names one account handle of an `UpdateMetadataAccount`.
#[derive(Clone, Copy, Debug, PartialEq, Eq)]
pub enum UpdateMetadataHandle {
    Metadata,
    UpdateAuthority,
}

/// A call for the runtime: the instruction, and the names of the account
/// handles to pass along with it, in order.
#[derive(Clone, Debug, PartialEq, Eq)]
pub struct Invocation<H> {
    pub instruction: Instruction,
    pub account_infos: Vec<H>,
}

/// The handles that go with the instruction that creates a metadata record.
pub open spec fn create_handles() -> Seq<CreateMetadataHandle> {
    seq![
        CreateMetadataHandle::Metadata,
        CreateMetadataHandle::Mint,
        CreateMetadataHandle::MintAuthority,
        CreateMetadataHandle::Payer,
        CreateMetadataHandle::UpdateAuthority,
        CreateMetadataHandle::SystemProgram,
        CreateMetadataHandle::Rent,
    ]
}

/// The handles that go with the instruction that updates a metadata record.
pub open spec fn update_handles() -> Seq<UpdateMetadataHandle> {
    seq![UpdateMetadataHandle::Metadata, UpdateMetadataHandle::UpdateAuthority]
}

impl CreateMetadata {
    /// The address behind a handle.
    pub open spec fn key_of(self, handle: CreateMetadataHandle) -> Seq<u8> {
        match handle {
            CreateMetadataHandle::Metadata => self.metadata@,
            CreateMetadataHandle::Mint => self.mint@,
            CreateMetadataHandle::MintAuthority => self.mint_authority@,
            CreateMetadataHandle::Payer => self.payer@,
            CreateMetadataHandle::UpdateAuthority => self.update_authority@,
            CreateMetadataHandle::SystemProgram => self.system_program@,
            CreateMetadataHandle::Rent => self.rent@,
        }
    }

    /// The three accounts whose address is fixed hold that address.
    pub open spec fn well_formed(self) -> bool {
        &&& self.token_metadata_program@ == token_metadata_program_key()
        &&& self.system_program@ == system_program_key()
        &&& self.rent@ == rent_sysvar_key()
    }

    /// The handles of `call` are those that its instruction names: as many,
    /// and each with the address of the account in the same place.
    pub open spec fn mirrored_by(self, call: Invocation<CreateMetadataHandle>) -> bool {
        &&& call.account_infos@.len() == call.instruction@.accounts.len()
        &&& forall|i: int|
            0 <= i < call.account_infos@.len() ==> self.key_of(#[trigger] call.account_infos@[i])
                == call.instruction@.accounts[i].pubkey
    }

    /// Whether the three accounts whose address is fixed hold that address.
    pub fn validate(&self) -> (valid: bool)
        ensures
            valid == self.well_formed(),
    {
        same_key(&self.token_metadata_program, &token_metadata_program_id()) && same_key(
            &self.system_program,
            &system_program_id(),
        ) && same_key(&self.rent, &rent_sysvar_id())
    }
}

impl UpdateMetadataAccount {
    /// The address behind a handle.
    pub open spec fn key_of(self, handle: UpdateMetadataHandle) -> Seq<u8> {
        match handle {
            UpdateMetadataHandle::Metadata => self.metadata@,
            UpdateMetadataHandle::UpdateAuthority => self.update_authority@,
        }
    }

    /// The metadata program is the one at the fixed address.
    pub open spec fn well_formed(self) -> bool {
        self.token_metadata_program@ == token_metadata_program_key()
    }

    /// The handles of `call` are those that its instruction names: as many,
    /// and each with the address of the account in the same place.
    pub open spec fn mirrored_by(self, call: Invocation<UpdateMetadataHandle>) -> bool {
        &&& call.account_infos@.len() == call.instruction@.accounts.len()
        &&& forall|i: int|
            0 <= i < call.account_infos@.len() ==> self.key_of(#[trigger] call.account_infos@[i])
                == call.instruction@.accounts[i].pubkey
    }

    /// Whether the metadata program is the one at the fixed address.
    pub fn validate(&self) -> (valid: bool)
        ensures
            valid == self.well_formed(),
    {
        same_key(&self.token_metadata_program, &token_metadata_program_id())
    }
}

/// The call that creates the metadata record of a mint. The instruction is
/// addressed to the token metadata program and to no other, and the handles
/// that go along are those that it names, in its order. The caller has made
/// sure beforehand, with `validate`, that the three accounts whose address is
/// fixed hold that address.
pub fn create_metadata(
    accounts: &CreateMetadata,
    name: String,
    symbol: String,
    uri: String,
    creators: Option<Vec<Creator>>,
    seller_fee_basis_points: u16,
    update_authority_is_signer: bool,
    is_mutable: bool,
) -> (call: Invocation<CreateMetadataHandle>)
    requires
        accounts.well_formed(),
        display(name@, symbol@, uri@, creators, seller_fee_basis_points).fits_wire(),
    ensures
        call.instruction@ == create_instruction(
            token_metadata_program_key(),
            accounts.metadata@,
            accounts.mint@,
            accounts.mint_authority@,
            accounts.payer@,
            accounts.update_authority@,
            display(name@, symbol@, uri@, creators, seller_fee_basis_points),
            update_authority_is_signer,
            is_mutable,
        ),
        decode_create_payload(call.instruction@.data) == Some(
            (display(name@, symbol@, uri@, creators, seller_fee_basis_points), is_mutable),
        ),
        call.account_infos@ == create_handles(),
        accounts.mirrored_by(call),
{
    let instruction = create_metadata_ix(
        accounts.token_metadata_program,
        accounts.metadata,
        accounts.mint,
        accounts.mint_authority,
        accounts.payer,
        accounts.update_authority,
        name,
        symbol,
        uri,
        creators,
        seller_fee_basis_points,
        update_authority_is_signer,
        is_mutable,
    );
    let mut account_infos: Vec<CreateMetadataHandle> = Vec::new();
    account_infos.push(CreateMetadataHandle::Metadata);
    account_infos.push(CreateMetadataHandle::Mint);
    account_infos.push(CreateMetadataHandle::MintAuthority);
    account_infos.push(CreateMetadataHandle::Payer);
    account_infos.push(CreateMetadataHandle::UpdateAuthority);
    account_infos.push(CreateMetadataHandle::SystemProgram);
    account_infos.push(CreateMetadataHandle::Rent);
    assert(account_infos@ =~= create_handles());
    Invocation { instruction, account_infos }
}

/// The call that updates a metadata record. Each of the three fields is
/// changed where it is given and left as it is where it is `None`. The
/// instruction is addressed to the token metadata program and to no other,
/// and the handles that go along are those that it names, in its order. The
/// caller has made sure beforehand, with `validate`, that the group names
/// that program.
pub fn update_metadata(
    accounts: &UpdateMetadataAccount,
    new_update_authority: Option<[u8; 32]>,
    data: Option<Data>,
    primary_sale_happened: Option<bool>,
) -> (call: Invocation<UpdateMetadataHandle>)
    requires
        accounts.well_formed(),
        data matches Some(d) ==> d@.fits_wire(),
    ensures
        call.instruction@ == update_instruction(
            token_metadata_program_key(),
            accounts.metadata@,
            accounts.update_authority@,
            optional_key_view(new_update_authority),
            optional_data_view(data),
            primary_sale_happened,
        ),
        decode_update_payload(call.instruction@.data) == Some(
            UpdateFields {
                data: optional_data_view(data),
                update_authority: optional_key_view(new_update_authority),
                primary_sale_happened,
            },
        ),
        call.account_infos@ == update_handles(),
        accounts.mirrored_by(call),
{
    proof {
        if let Some(d) = &data {
            d.lemma_view_well_formed();
        }
        lemma_update_payload_round_trip(
            optional_data_view(data),
            optional_key_view(new_update_authority),
            primary_sale_happened,
        );
    }
    let instruction = update_metadata_ix(
        accounts.token_metadata_program,
        accounts.metadata,
        accounts.update_authority,
        new_update_authority,
        data,
        primary_sale_happened,
    );
    let mut account_infos: Vec<UpdateMetadataHandle> = Vec::new();
    account_infos.push(UpdateMetadataHandle::Metadata);
    account_infos.push(UpdateMetadataHandle::UpdateAuthority);
    assert(account_infos@ =~= update_handles());
    Invocation { instruction, account_infos }
}

} // verus!
