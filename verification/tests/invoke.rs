use anchor_lang::solana_program::{system_program, sysvar};
use anchor_token_metadata::keys::same_key;
use anchor_token_metadata::{
    create_metadata, create_metadata_ix, fits_wire, update_metadata, CreateMetadata,
    CreateMetadataHandle, Creator, Data, Instruction, Invocation, TokenMetadata,
    UpdateMetadataAccount, UpdateMetadataHandle,
};

fn key(n: u8) -> [u8; 32] {
    [n; 32]
}

fn group() -> CreateMetadata {
    CreateMetadata {
        metadata: key(1),
        mint: key(2),
        mint_authority: key(3),
        payer: key(4),
        update_authority: key(5),
        token_metadata_program: TokenMetadata::id(),
        system_program: system_program::id().to_bytes(),
        rent: sysvar::rent::id().to_bytes(),
    }
}

fn address(group: &CreateMetadata, handle: CreateMetadataHandle) -> [u8; 32] {
    match handle {
        CreateMetadataHandle::Metadata => group.metadata,
        CreateMetadataHandle::Mint => group.mint,
        CreateMetadataHandle::MintAuthority => group.mint_authority,
        CreateMetadataHandle::Payer => group.payer,
        CreateMetadataHandle::UpdateAuthority => group.update_authority,
        CreateMetadataHandle::SystemProgram => group.system_program,
        CreateMetadataHandle::Rent => group.rent,
    }
}

fn widget_call(group: &CreateMetadata) -> Invocation<CreateMetadataHandle> {
    create_metadata(
        group,
        "Widget".to_string(),
        "WGT".to_string(),
        "https://x/1.json".to_string(),
        Some(vec![Creator { address: key(7), verified: true, share: 100 }]),
        250,
        false,
        true,
    )
}

#[test]
fn create_call_passes_seven_handles_in_order() {
    let call = widget_call(&group());
    assert_eq!(
        call.account_infos,
        vec![
            CreateMetadataHandle::Metadata,
            CreateMetadataHandle::Mint,
            CreateMetadataHandle::MintAuthority,
            CreateMetadataHandle::Payer,
            CreateMetadataHandle::UpdateAuthority,
            CreateMetadataHandle::SystemProgram,
            CreateMetadataHandle::Rent,
        ]
    );
}

#[test]
fn create_call_handles_mirror_the_instruction() {
    let group = group();
    let call = widget_call(&group);
    assert_eq!(call.account_infos.len(), call.instruction.accounts.len());
    for (handle, meta) in call.account_infos.iter().zip(call.instruction.accounts.iter()) {
        assert_eq!(address(&group, *handle), meta.pubkey);
    }
}

#[test]
fn create_call_holds_the_built_instruction() {
    let group = group();
    let call = widget_call(&group);
    let ix = create_metadata_ix(
        group.token_metadata_program,
        group.metadata,
        group.mint,
        group.mint_authority,
        group.payer,
        group.update_authority,
        "Widget".to_string(),
        "WGT".to_string(),
        "https://x/1.json".to_string(),
        Some(vec![Creator { address: key(7), verified: true, share: 100 }]),
        250,
        false,
        true,
    );
    assert_eq!(call.instruction, ix);
}

#[test]
fn create_call_goes_to_the_metadata_program() {
    let group = group();
    assert!(group.validate());
    let call = widget_call(&group);
    assert_eq!(call.instruction.program_id, spl_token_metadata::id().to_bytes());
    assert_eq!(call.instruction.program_id, TokenMetadata::id());
}

#[test]
fn create_group_that_names_another_program_is_refused() {
    let mut group = group();
    group.token_metadata_program = key(42);
    assert!(!group.validate());
}

#[test]
fn create_group_is_valid_with_the_fixed_addresses_only() {
    assert!(group().validate());
    let mut wrong = group();
    wrong.token_metadata_program = key(42);
    assert!(!wrong.validate());
    let mut wrong = group();
    wrong.system_program = key(1);
    assert!(!wrong.validate());
    let mut wrong = group();
    wrong.rent = [0u8; 32];
    assert!(!wrong.validate());
    let mut wrong = group();
    wrong.rent[31] = 1;
    assert!(!wrong.validate());
}

#[test]
fn update_call_handles_mirror_the_instruction() {
    let group = UpdateMetadataAccount {
        metadata: key(1),
        update_authority: key(2),
        token_metadata_program: TokenMetadata::id(),
    };
    let call = update_metadata(&group, None, None, Some(true));
    assert_eq!(call.account_infos.len(), call.instruction.accounts.len());
    for (handle, meta) in call.account_infos.iter().zip(call.instruction.accounts.iter()) {
        let address = match handle {
            UpdateMetadataHandle::Metadata => group.metadata,
            UpdateMetadataHandle::UpdateAuthority => group.update_authority,
        };
        assert_eq!(address, meta.pubkey);
    }
}

#[test]
fn same_key_compares_all_bytes() {
    assert!(same_key(&key(3), &key(3)));
    assert!(!same_key(&key(3), &key(4)));
    let mut other = key(3);
    other[31] = 0;
    assert!(!same_key(&key(3), &other));
    let mut other = key(3);
    other[0] = 0;
    assert!(!same_key(&key(3), &other));
}

#[test]
fn ordinary_data_fits_the_wire() {
    assert!(fits_wire("Widget", "WGT", "https://x/1.json", &None));
    assert!(fits_wire("", "", "", &Some(Vec::new())));
    let data = Data {
        name: "é€".to_string(),
        symbol: "S".to_string(),
        uri: "u".repeat(5000),
        seller_fee_basis_points: 1,
        creators: Some(vec![Creator { address: key(1), verified: false, share: 1 }; 300]),
    };
    assert!(data.fits_wire());
}

/// A runtime that holds which accounts exist, and refuses to create one twice.
struct StubRuntime {
    initialized: Vec<[u8; 32]>,
}

impl StubRuntime {
    fn invoke(&mut self, ix: &Instruction) -> Result<(), String> {
        if ix.data.first() != Some(&0) {
            return Err("unknown instruction".to_string());
        }
        let metadata = ix.accounts[0].pubkey;
        if self.initialized.contains(&metadata) {
            return Err("account already initialized".to_string());
        }
        self.initialized.push(metadata);
        Ok(())
    }
}

#[test]
fn second_create_for_the_same_address_fails() {
    let mut runtime = StubRuntime { initialized: Vec::new() };
    let first = widget_call(&group());
    let second = widget_call(&group());
    assert_eq!(first, second);
    assert_eq!(runtime.invoke(&first.instruction), Ok(()));
    assert_eq!(
        runtime.invoke(&second.instruction),
        Err("account already initialized".to_string())
    );
    let mut other = group();
    other.metadata = key(77);
    assert_eq!(runtime.invoke(&widget_call(&other).instruction), Ok(()));
}
