//! Builds the two instructions.

use crate::instruction::{readonly, writable, AccountMeta, AccountMetaView, Instruction, InstructionView};
use crate::keys::{rent_sysvar_id, rent_sysvar_key, system_program_id, system_program_key};
use crate::round_trip::lemma_create_payload_round_trip;
use crate::state::{display, lemma_display_well_formed, optional_data_view, optional_key_view, Creator, Data, DataView};
use crate::wire::{create_payload, decode_create_payload, update_payload};
use anchor_lang::solana_program::pubkey::Pubkey;
use anchor_lang::AnchorSerialize;
use spl_token_metadata::instruction::{
    update_metadata_accounts, CreateMetadataAccountArgs, MetadataInstruction,
};
use spl_token_metadata::state;
use vstd::prelude::*;

verus! {

/// The accounts of the instruction that creates a metadata record, in the
/// order in which the metadata program reads them.
pub open spec fn create_accounts(
    metadata_account: Seq<u8>,
    mint: Seq<u8>,
    mint_authority: Seq<u8>,
    payer: Seq<u8>,
    update_authority: Seq<u8>,
    update_authority_is_signer: bool,
) -> Seq<AccountMetaView> {
    seq![
        writable(metadata_account, false),
        readonly(mint, false),
        readonly(mint_authority, true),
        writable(payer, true),
        readonly(update_authority, update_authority_is_signer),
        readonly(system_program_key(), false),
        readonly(rent_sysvar_key(), false),
    ]
}

/// The accounts of the instruction that updates a metadata record, in order.
pub open spec fn update_accounts(metadata_account: Seq<u8>, update_authority: Seq<u8>) -> Seq<
    AccountMetaView,
> {
    seq![writable(metadata_account, false), readonly(update_authority, true)]
}

/// The account list of the instruction that creates a metadata record has
/// seven entries, in this order: the metadata account, writable; the mint;
/// the mint authority, signer; the payer, writable and signer; the update
/// authority, which signs where `update_authority_is_signer` says so; the
/// system program; the rent sysvar. What is not said to be writable or signer
/// is not. The flag decides nothing but the signature of the update authority:
/// with any other value of it, `other_flag`, every other entry is the same,
/// and so are the address and the mutability of the update authority.
pub proof fn lemma_create_accounts(
    metadata_account: Seq<u8>,
    mint: Seq<u8>,
    mint_authority: Seq<u8>,
    payer: Seq<u8>,
    update_authority: Seq<u8>,
    update_authority_is_signer: bool,
    other_flag: bool,
)
    ensures
        ({
            let accounts = create_accounts(
                metadata_account,
                mint,
                mint_authority,
                payer,
                update_authority,
                update_authority_is_signer,
            );
            let others = create_accounts(
                metadata_account,
                mint,
                mint_authority,
                payer,
                update_authority,
                other_flag,
            );
            &&& accounts.len() == 7
            &&& accounts[0] == (AccountMetaView {
                pubkey: metadata_account,
                is_signer: false,
                is_writable: true,
            })
            &&& accounts[1] == (AccountMetaView { pubkey: mint, is_signer: false, is_writable: false })
            &&& accounts[2] == (AccountMetaView {
                pubkey: mint_authority,
                is_signer: true,
                is_writable: false,
            })
            &&& accounts[3] == (AccountMetaView { pubkey: payer, is_signer: true, is_writable: true })
            &&& accounts[4] == (AccountMetaView {
                pubkey: update_authority,
                is_signer: update_authority_is_signer,
                is_writable: false,
            })
            &&& accounts[5] == (AccountMetaView {
                pubkey: system_program_key(),
                is_signer: false,
                is_writable: false,
            })
            &&& accounts[6] == (AccountMetaView {
                pubkey: rent_sysvar_key(),
                is_signer: false,
                is_writable: false,
            })
            &&& others.len() == 7
            &&& forall|i: int| 0 <= i < 7 && i != 4 ==> others[i] == accounts[i]
            &&& others[4].pubkey == accounts[4].pubkey
            &&& others[4].is_writable == accounts[4].is_writable
        }),
{
}

/// The account list of the instruction that updates a metadata record has
/// two entries: the metadata account, writable and no signer, then the
/// update authority, signer and read-only.
pub proof fn lemma_update_accounts(metadata_account: Seq<u8>, update_authority: Seq<u8>)
    ensures
        ({
            let accounts = update_accounts(metadata_account, update_authority);
            &&& accounts.len() == 2
            &&& accounts[0] == (AccountMetaView {
                pubkey: metadata_account,
                is_signer: false,
                is_writable: true,
            })
            &&& accounts[1] == (AccountMetaView {
                pubkey: update_authority,
                is_signer: true,
                is_writable: false,
            })
        }),
{
}

/// The instruction that creates a metadata record.
pub open spec fn create_instruction(
    program_id: Seq<u8>,
    metadata_account: Seq<u8>,
    mint: Seq<u8>,
    mint_authority: Seq<u8>,
    payer: Seq<u8>,
    update_authority: Seq<u8>,
    data: DataView,
    update_authority_is_signer: bool,
    is_mutable: bool,
) -> InstructionView {
    InstructionView {
        program_id,
        accounts: create_accounts(
            metadata_account,
            mint,
            mint_authority,
            payer,
            update_authority,
            update_authority_is_signer,
        ),
        data: create_payload(data, is_mutable),
    }
}

/// The instruction that updates a metadata record.
pub open spec fn update_instruction(
    program_id: Seq<u8>,
    metadata_account: Seq<u8>,
    update_authority: Seq<u8>,
    new_update_authority: Option<Seq<u8>>,
    data: Option<DataView>,
    primary_sale_happened: Option<bool>,
) -> InstructionView {
    InstructionView {
        program_id,
        accounts: update_accounts(metadata_account, update_authority),
        data: update_payload(data, new_update_authority, primary_sale_happened),
    }
}

/// Serialises `MetadataInstruction::CreateMetadataAccount` with `try_to_vec`.
/// Trusted: the bytes are the tag of that variant, the first of the enum, then
/// the fields of `Data` in the order of their declaration, then `is_mutable`,
/// each in the layout that module `wire` writes down. The serialiser fails on
/// a length over `u32::MAX`, which `requires` leaves out.
#[verifier::external_body]
fn serialize_create_args(data: Data, is_mutable: bool) -> (bytes: Vec<u8>)
    requires
        data@.fits_wire(),
    ensures
        bytes@ == create_payload(data@, is_mutable),
{
    let key = Pubkey::new_from_array;
    let creators = data.creators.map(|list| list.into_iter().map(|c| state::Creator {
        address: key(c.address), verified: c.verified, share: c.share,
    }).collect());
    let data = state::Data {
        name: data.name, symbol: data.symbol, uri: data.uri,
        seller_fee_basis_points: data.seller_fee_basis_points, creators,
    };
    MetadataInstruction::CreateMetadataAccount(CreateMetadataAccountArgs { data, is_mutable })
        .try_to_vec().unwrap()
}

/// Calls `spl_token_metadata::instruction::update_metadata_accounts`.
/// Trusted: the instruction is addressed to `program_id`; it names the
/// metadata account, writable and no signer, then the update authority,
/// read-only and signer; its payload is the serialised
/// `MetadataInstruction::UpdateMetadataAccount`, the second variant of the
/// enum, whose fields are declared in the order data, update authority,
/// primary sale. The serialiser fails on a length over `u32::MAX`, which
/// `requires` leaves out.
#[verifier::external_body]
pub(crate) fn update_metadata_ix(
    program_id: [u8; 32],
    metadata_account: [u8; 32],
    update_authority: [u8; 32],
    new_update_authority: Option<[u8; 32]>,
    data: Option<Data>,
    primary_sale_happened: Option<bool>,
) -> (ix: Instruction)
    requires
        data matches Some(d) ==> d@.fits_wire(),
    ensures
        ix@ == update_instruction(
            program_id@,
            metadata_account@,
            update_authority@,
            optional_key_view(new_update_authority),
            optional_data_view(data),
            primary_sale_happened,
        ),
{
    let key = Pubkey::new_from_array;
    let ix = update_metadata_accounts(key(program_id), key(metadata_account),
        key(update_authority), new_update_authority.map(key), data.map(|d| state::Data {
            name: d.name, symbol: d.symbol, uri: d.uri,
            seller_fee_basis_points: d.seller_fee_basis_points,
            creators: d.creators.map(|list| list.into_iter().map(|c| state::Creator {
                address: key(c.address), verified: c.verified, share: c.share
            }).collect())
        }), primary_sale_happened);
    Instruction { program_id: ix.program_id.to_bytes(), data: ix.data,
        accounts: ix.accounts.iter().map(|m| AccountMeta {
            pubkey: m.pubkey.to_bytes(), is_signer: m.is_signer, is_writable: m.is_writable
        }).collect() }
}

/// The instruction that creates the metadata record of a mint.
pub fn create_metadata_ix(
    program_id: [u8; 32],
    metadata_account: [u8; 32],
    mint: [u8; 32],
    mint_authority: [u8; 32],
    payer: [u8; 32],
    update_authority: [u8; 32],
    name: String,
    symbol: String,
    uri: String,
    creators: Option<Vec<Creator>>,
    seller_fee_basis_points: u16,
    update_authority_is_signer: bool,
    is_mutable: bool,
) -> (ix: Instruction)
    requires
        display(name@, symbol@, uri@, creators, seller_fee_basis_points).fits_wire(),
    ensures
        ix@ == create_instruction(
            program_id@,
            metadata_account@,
            mint@,
            mint_authority@,
            payer@,
            update_authority@,
            display(name@, symbol@, uri@, creators, seller_fee_basis_points),
            update_authority_is_signer,
            is_mutable,
        ),
        decode_create_payload(ix@.data) == Some(
            (display(name@, symbol@, uri@, creators, seller_fee_basis_points), is_mutable),
        ),
{
    proof {
        lemma_display_well_formed(name@, symbol@, uri@, creators, seller_fee_basis_points);
        lemma_create_payload_round_trip(
            display(name@, symbol@, uri@, creators, seller_fee_basis_points),
            is_mutable,
        );
    }
    let mut accounts: Vec<AccountMeta> = Vec::new();
    accounts.push(AccountMeta::new(metadata_account, false));
    accounts.push(AccountMeta::new_readonly(mint, false));
    accounts.push(AccountMeta::new_readonly(mint_authority, true));
    accounts.push(AccountMeta::new(payer, true));
    accounts.push(AccountMeta::new_readonly(update_authority, update_authority_is_signer));
    accounts.push(AccountMeta::new_readonly(system_program_id(), false));
    accounts.push(AccountMeta::new_readonly(rent_sysvar_id(), false));
    let data = serialize_create_args(
        Data { name, symbol, uri, seller_fee_basis_points, creators },
        is_mutable,
    );
    let ix = Instruction { program_id, accounts, data };
    assert(ix@.accounts =~= create_accounts(
        metadata_account@,
        mint@,
        mint_authority@,
        payer@,
        update_authority@,
        update_authority_is_signer,
    ));
    ix
}

} // verus!
