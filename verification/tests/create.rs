use anchor_lang::solana_program::pubkey::Pubkey;
use anchor_lang::solana_program::{system_program, sysvar};
use anchor_lang::AnchorDeserialize;
use anchor_token_metadata::{create_metadata_ix, AccountMeta, Creator, Instruction, TokenMetadata};
use spl_token_metadata::instruction::{create_metadata_accounts, MetadataInstruction};
use spl_token_metadata::state;

fn key(n: u8) -> [u8; 32] {
    [n; 32]
}

fn widget(update_authority_is_signer: bool) -> Instruction {
    create_metadata_ix(
        TokenMetadata::id(),
        key(1),
        key(2),
        key(3),
        key(4),
        key(5),
        "Widget".to_string(),
        "WGT".to_string(),
        "https://x/1.json".to_string(),
        None,
        250,
        update_authority_is_signer,
        true,
    )
}

fn decode_create(data: &[u8]) -> (state::Data, bool) {
    match MetadataInstruction::try_from_slice(data).unwrap() {
        MetadataInstruction::CreateMetadataAccount(args) => (args.data, args.is_mutable),
        _ => panic!("not a create payload"),
    }
}

#[test]
fn widget_create_request_keeps_update_authority_unsigned() {
    let ix = widget(false);
    assert_eq!(ix.accounts.len(), 7);
    assert_eq!(
        ix.accounts[4],
        AccountMeta { pubkey: key(5), is_signer: false, is_writable: false }
    );
    let (data, is_mutable) = decode_create(&ix.data);
    assert_eq!(data.name, "Widget");
    assert_eq!(data.symbol, "WGT");
    assert_eq!(data.uri, "https://x/1.json");
    assert_eq!(data.seller_fee_basis_points, 250);
    assert_eq!(data.creators, None);
    assert!(is_mutable);
}

#[test]
fn create_names_seven_accounts_in_order() {
    let ix = widget(true);
    assert_eq!(ix.program_id, spl_token_metadata::id().to_bytes());
    assert_eq!(
        ix.accounts,
        vec![
            AccountMeta { pubkey: key(1), is_signer: false, is_writable: true },
            AccountMeta { pubkey: key(2), is_signer: false, is_writable: false },
            AccountMeta { pubkey: key(3), is_signer: true, is_writable: false },
            AccountMeta { pubkey: key(4), is_signer: true, is_writable: true },
            AccountMeta { pubkey: key(5), is_signer: true, is_writable: false },
            AccountMeta { pubkey: [0u8; 32], is_signer: false, is_writable: false },
            AccountMeta {
                pubkey: [
                    6, 167, 213, 23, 25, 44, 92, 81, 33, 140, 201, 76, 61, 74, 241, 127, 88, 218,
                    238, 8, 155, 161, 253, 68, 227, 219, 217, 138, 0, 0, 0, 0,
                ],
                is_signer: false,
                is_writable: false,
            },
        ]
    );
}

#[test]
fn create_names_the_system_program_and_the_rent_sysvar() {
    let ix = widget(false);
    assert_eq!(ix.accounts[5].pubkey, system_program::id().to_bytes());
    assert_eq!(ix.accounts[6].pubkey, sysvar::rent::id().to_bytes());
}

#[test]
fn signer_flag_decides_only_the_update_authority() {
    let signed = widget(true);
    let unsigned = widget(false);
    assert!(signed.accounts[4].is_signer);
    assert!(!unsigned.accounts[4].is_signer);
    assert_eq!(signed.accounts[4].pubkey, unsigned.accounts[4].pubkey);
    assert_eq!(signed.accounts[4].is_writable, unsigned.accounts[4].is_writable);
    for i in [0usize, 1, 2, 3, 5, 6] {
        assert_eq!(signed.accounts[i], unsigned.accounts[i]);
    }
    assert_eq!(signed.data, unsigned.data);
    assert_eq!(signed.program_id, unsigned.program_id);
}

#[test]
fn create_payload_bytes_are_exact() {
    let ix = create_metadata_ix(
        key(9),
        key(1),
        key(2),
        key(3),
        key(4),
        key(5),
        "A".to_string(),
        "BC".to_string(),
        "".to_string(),
        None,
        0x0102,
        false,
        false,
    );
    assert_eq!(ix.program_id, key(9));
    assert_eq!(
        ix.data,
        vec![0, 1, 0, 0, 0, 65, 2, 0, 0, 0, 66, 67, 0, 0, 0, 0, 2, 1, 0, 0]
    );
}

#[test]
fn create_payload_with_creators_bytes_are_exact() {
    let creators = vec![
        Creator { address: key(7), verified: true, share: 60 },
        Creator { address: key(8), verified: false, share: 40 },
    ];
    let ix = create_metadata_ix(
        key(9),
        key(1),
        key(2),
        key(3),
        key(4),
        key(5),
        "A".to_string(),
        "B".to_string(),
        "C".to_string(),
        Some(creators),
        500,
        true,
        true,
    );
    let mut expected = vec![0u8, 1, 0, 0, 0, 65, 1, 0, 0, 0, 66, 1, 0, 0, 0, 67, 244, 1, 1, 2, 0, 0, 0];
    expected.extend_from_slice(&key(7));
    expected.extend_from_slice(&[1, 60]);
    expected.extend_from_slice(&key(8));
    expected.extend_from_slice(&[0, 40]);
    expected.push(1);
    assert_eq!(ix.data, expected);
}

#[test]
fn string_length_counts_utf8_bytes() {
    let ix = create_metadata_ix(
        key(9),
        key(1),
        key(2),
        key(3),
        key(4),
        key(5),
        "é€".to_string(),
        "".to_string(),
        "".to_string(),
        None,
        0,
        false,
        false,
    );
    assert_eq!(
        ix.data,
        vec![0, 5, 0, 0, 0, 0xc3, 0xa9, 0xe2, 0x82, 0xac, 0, 0, 0, 0, 0, 0, 0, 0, 0, 0, 0, 0]
    );
    let (data, _) = decode_create(&ix.data);
    assert_eq!(data.name, "é€");
}

#[test]
fn create_round_trip_keeps_creators() {
    let creators = vec![
        Creator { address: key(7), verified: true, share: 60 },
        Creator { address: key(8), verified: false, share: 40 },
    ];
    let ix = create_metadata_ix(
        TokenMetadata::id(),
        key(1),
        key(2),
        key(3),
        key(4),
        key(5),
        "Gadget".to_string(),
        "GDG".to_string(),
        "ipfs://gadget".to_string(),
        Some(creators),
        10000,
        true,
        false,
    );
    let (data, is_mutable) = decode_create(&ix.data);
    assert_eq!(data.name, "Gadget");
    assert_eq!(data.symbol, "GDG");
    assert_eq!(data.uri, "ipfs://gadget");
    assert_eq!(data.seller_fee_basis_points, 10000);
    assert_eq!(
        data.creators,
        Some(vec![
            state::Creator { address: Pubkey::new_from_array(key(7)), verified: true, share: 60 },
            state::Creator { address: Pubkey::new_from_array(key(8)), verified: false, share: 40 },
        ])
    );
    assert!(!is_mutable);
}

#[test]
fn absent_creators_differ_from_an_empty_list() {
    let build = |creators: Option<Vec<Creator>>| {
        create_metadata_ix(
            key(9),
            key(1),
            key(2),
            key(3),
            key(4),
            key(5),
            "n".to_string(),
            "s".to_string(),
            "u".to_string(),
            creators,
            1,
            false,
            true,
        )
    };
    let absent = build(None);
    let empty = build(Some(Vec::new()));
    assert_ne!(absent.data, empty.data);
    assert_eq!(decode_create(&absent.data).0.creators, None);
    assert_eq!(decode_create(&empty.data).0.creators, Some(Vec::new()));
}

#[test]
fn create_differs_from_the_metadata_program_builder_in_the_payer_only() {
    let ours = widget(true);
    let theirs = create_metadata_accounts(
        spl_token_metadata::id(),
        Pubkey::new_from_array(key(1)),
        Pubkey::new_from_array(key(2)),
        Pubkey::new_from_array(key(3)),
        Pubkey::new_from_array(key(4)),
        Pubkey::new_from_array(key(5)),
        "Widget".to_string(),
        "WGT".to_string(),
        "https://x/1.json".to_string(),
        None,
        250,
        true,
        true,
    );
    assert_eq!(ours.program_id, theirs.program_id.to_bytes());
    assert_eq!(ours.data, theirs.data);
    assert_eq!(ours.accounts.len(), theirs.accounts.len());
    for i in 0..7 {
        assert_eq!(ours.accounts[i].pubkey, theirs.accounts[i].pubkey.to_bytes());
        assert_eq!(ours.accounts[i].is_signer, theirs.accounts[i].is_signer);
        if i != 3 {
            assert_eq!(ours.accounts[i].is_writable, theirs.accounts[i].is_writable);
        }
    }
    assert!(ours.accounts[3].is_writable);
}

#[test]
fn same_addresses_may_repeat() {
    let ix = create_metadata_ix(
        key(1),
        key(1),
        key(1),
        key(1),
        key(1),
        key(1),
        String::new(),
        String::new(),
        String::new(),
        None,
        0,
        false,
        false,
    );
    assert_eq!(ix.accounts.len(), 7);
    assert!(ix.accounts[0].is_writable && !ix.accounts[0].is_signer);
    assert!(!ix.accounts[1].is_writable && !ix.accounts[1].is_signer);
    assert!(!ix.accounts[2].is_writable && ix.accounts[2].is_signer);
    assert!(ix.accounts[3].is_writable && ix.accounts[3].is_signer);
    assert!(!ix.accounts[4].is_writable && !ix.accounts[4].is_signer);
}
