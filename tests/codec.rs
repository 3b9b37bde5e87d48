use borsh::BorshSerialize;
use token_registry::error::{CodecError, RegistryError};
use token_registry::instruction::RegistryInstruction;
use token_registry::slot::{
    node_slot_capacity, node_slot_image, read_meta_slot, read_node_slot,
};
use token_registry::state::{
    CreateUpdateEntryInstructionData, RegistryMetaAccount, RegistryNodeAccount, META_LEN,
};

fn usdx_entry() -> CreateUpdateEntryInstructionData {
    CreateUpdateEntryInstructionData {
        token_symbol: "USDX".to_string(),
        token_name: "US Dollar X".to_string(),
        token_logo_url: "https://x/logo.png".to_string(),
        token_tags: vec!["stablecoin".to_string()],
        token_extensions: vec![vec!["website".to_string(), "https://x".to_string()]],
    }
}

fn sample_node() -> RegistryNodeAccount {
    let e = usdx_entry();
    RegistryNodeAccount {
        next_registry_node: [1; 32],
        prev_registry_node: [2; 32],
        token_mint: [3; 32],
        token_symbol: e.token_symbol,
        token_name: e.token_name,
        token_logo_url: e.token_logo_url,
        token_tags: e.token_tags,
        token_extensions: e.token_extensions,
        token_update_authority: [4; 32],
        deleted: false,
    }
}

fn same_node(a: &RegistryNodeAccount, b: &RegistryNodeAccount) -> bool {
    a.next_registry_node == b.next_registry_node
        && a.prev_registry_node == b.prev_registry_node
        && a.token_mint == b.token_mint
        && a.token_symbol == b.token_symbol
        && a.token_name == b.token_name
        && a.token_logo_url == b.token_logo_url
        && a.token_tags == b.token_tags
        && a.token_extensions == b.token_extensions
        && a.token_update_authority == b.token_update_authority
        && a.deleted == b.deleted
}

#[test]
fn entry_encoding_matches_borsh_layout() {
    let e = usdx_entry();
    let expected = (
        e.token_symbol.clone(),
        e.token_name.clone(),
        e.token_logo_url.clone(),
        e.token_tags.clone(),
        e.token_extensions.clone(),
    )
        .try_to_vec()
        .unwrap();
    assert_eq!(e.encode(), expected);
}

#[test]
fn string_encoding_is_length_then_utf8() {
    let e = CreateUpdateEntryInstructionData {
        token_symbol: "é".to_string(),
        token_name: String::new(),
        token_logo_url: String::new(),
        token_tags: vec![],
        token_extensions: vec![],
    };
    let bytes = e.encode();
    assert_eq!(&bytes[..6], &[2, 0, 0, 0, 0xc3, 0xa9]);
    assert_eq!(bytes.len(), 6 + 4 * 4);
}

#[test]
fn entry_round_trip() {
    let e = usdx_entry();
    let d = CreateUpdateEntryInstructionData::decode(&e.encode()).unwrap();
    assert_eq!(d.token_symbol, "USDX");
    assert_eq!(d.token_name, "US Dollar X");
    assert_eq!(d.token_logo_url, "https://x/logo.png");
    assert_eq!(d.token_tags, vec!["stablecoin".to_string()]);
    assert_eq!(d.token_extensions, vec![vec!["website".to_string(), "https://x".to_string()]]);
}

#[test]
fn entry_decode_refuses_trailing_and_short_input() {
    let mut bytes = usdx_entry().encode();
    bytes.push(0);
    assert!(CreateUpdateEntryInstructionData::decode(&bytes).is_none());
    bytes.pop();
    bytes.pop();
    assert!(CreateUpdateEntryInstructionData::decode(&bytes).is_none());
}

#[test]
fn entry_decode_refuses_invalid_utf8() {
    let bytes = vec![1, 0, 0, 0, 0xff, 0, 0, 0, 0, 0, 0, 0, 0, 0, 0, 0, 0, 0, 0, 0, 0, 0, 0, 0, 0];
    assert!(CreateUpdateEntryInstructionData::decode(&bytes).is_none());
}

#[test]
fn node_round_trip() {
    let n = sample_node();
    let bytes = n.encode();
    let d = RegistryNodeAccount::decode(&bytes).unwrap();
    assert!(same_node(&n, &d));
}

#[test]
fn node_decode_refuses_bad_flag() {
    let mut bytes = sample_node().encode();
    let last = bytes.len() - 1;
    bytes[last] = 2;
    assert!(RegistryNodeAccount::decode(&bytes).is_none());
}

#[test]
fn meta_round_trip_and_layout() {
    let m = RegistryMetaAccount {
        head_registry_node: [9; 32],
        fee_amount: 0x0102_0304_0506_0708,
        fee_mint: [8; 32],
        fee_destination: [7; 32],
        fee_update_authority: [6; 32],
        initialized: true,
    };
    let bytes = m.encode();
    assert_eq!(bytes.len(), META_LEN);
    assert_eq!(bytes.len(), 137);
    assert_eq!(&bytes[32..40], &[8, 7, 6, 5, 4, 3, 2, 1]);
    assert_eq!(bytes[136], 1);
    let d = RegistryMetaAccount::decode(&bytes).unwrap();
    assert_eq!(d.head_registry_node, [9; 32]);
    assert_eq!(d.fee_amount, 0x0102_0304_0506_0708);
    assert_eq!(d.fee_mint, [8; 32]);
    assert_eq!(d.fee_destination, [7; 32]);
    assert_eq!(d.fee_update_authority, [6; 32]);
    assert!(d.initialized);
}

#[test]
fn max_filled_sizes_the_slot() {
    let m = RegistryNodeAccount::max_filled();
    assert_eq!(m.token_symbol.len(), 16);
    assert_eq!(m.token_name.len(), 32);
    assert_eq!(m.token_logo_url.len(), 256);
    assert_eq!(m.token_tags.len(), 2);
    assert_eq!(m.token_extensions.len(), 2);
    assert_eq!(m.token_extensions[1].len(), 2);
    assert!(m.token_logo_url.bytes().all(|b| b == 0));
    assert_eq!(m.encode().len(), 2021);
    assert_eq!(node_slot_capacity(), 2025);
}

#[test]
fn node_slot_round_trip_with_reserved_bytes() {
    let n = sample_node();
    let image = node_slot_image(&n, 2025).unwrap();
    let payload = n.encode();
    assert_eq!(&image[..4], &(payload.len() as u32).to_be_bytes());
    let mut slot = vec![0u8; 2025];
    slot[..image.len()].copy_from_slice(&image);
    let d = read_node_slot(&slot).unwrap();
    assert!(same_node(&n, &d));
}

#[test]
fn node_slot_too_large() {
    let mut n = sample_node();
    n.token_logo_url = "x".repeat(3000);
    assert!(matches!(node_slot_image(&n, 2025), Err(CodecError::TooLarge)));
    let n = sample_node();
    let len = n.encode().len();
    assert!(node_slot_image(&n, len + 4).is_ok());
    assert!(matches!(node_slot_image(&n, len + 3), Err(CodecError::TooLarge)));
}

#[test]
fn node_slot_read_errors() {
    assert!(matches!(read_node_slot(&[]), Err(RegistryError::NotYetRegisteredMint)));
    assert!(matches!(read_node_slot(&[0, 0]), Err(RegistryError::Codec(CodecError::Truncated))));
    assert!(matches!(
        read_node_slot(&[0, 0, 0, 9, 1, 2]),
        Err(RegistryError::Codec(CodecError::Truncated))
    ));
    assert!(matches!(
        read_node_slot(&[0, 0, 0, 2, 1, 2, 0, 0]),
        Err(RegistryError::Codec(CodecError::Malformed))
    ));
}

#[test]
fn meta_slot_errors() {
    assert!(matches!(read_meta_slot(&[]), Err(RegistryError::NotYetInitialized)));
    assert!(matches!(read_meta_slot(&[0; 10]), Err(RegistryError::Codec(CodecError::Truncated))));
    let mut bytes = vec![0u8; 137];
    bytes[136] = 5;
    assert!(matches!(read_meta_slot(&bytes), Err(RegistryError::Codec(CodecError::Malformed))));
    let m = RegistryMetaAccount {
        head_registry_node: [0; 32],
        fee_amount: 5,
        fee_mint: [0; 32],
        fee_destination: [0; 32],
        fee_update_authority: [0; 32],
        initialized: false,
    };
    let d = read_meta_slot(&m.encode()).unwrap();
    assert!(!d.initialized);
    assert_eq!(d.fee_amount, 5);
}

#[test]
fn unpack_fee_instructions() {
    let mut input = vec![0u8];
    input.extend_from_slice(&1000u64.to_be_bytes());
    assert!(matches!(
        RegistryInstruction::unpack(&input),
        Ok(RegistryInstruction::InitializeRegistry { fee_amount: 1000 })
    ));
    input[0] = 1;
    assert!(matches!(
        RegistryInstruction::unpack(&input),
        Ok(RegistryInstruction::UpdateFees { fee_amount: 1000 })
    ));
    input.pop();
    assert!(matches!(
        RegistryInstruction::unpack(&input),
        Err(RegistryError::InvalidInstructionData)
    ));
}

#[test]
fn unpack_entry_instructions() {
    let mut input = vec![2u8];
    input.extend_from_slice(&usdx_entry().encode());
    match RegistryInstruction::unpack(&input) {
        Ok(RegistryInstruction::CreateEntry { token_symbol, token_tags, .. }) => {
            assert_eq!(token_symbol, "USDX");
            assert_eq!(token_tags, vec!["stablecoin".to_string()]);
        }
        _ => panic!("expected CreateEntry"),
    }
    input[0] = 4;
    assert!(matches!(
        RegistryInstruction::unpack(&input),
        Ok(RegistryInstruction::UpdateEntry { .. })
    ));
    input.push(0);
    assert!(matches!(
        RegistryInstruction::unpack(&input),
        Err(RegistryError::InvalidInstructionData)
    ));
}

#[test]
fn unpack_other_tags() {
    assert!(matches!(RegistryInstruction::unpack(&[3]), Ok(RegistryInstruction::DeleteEntry)));
    assert!(matches!(
        RegistryInstruction::unpack(&[5]),
        Ok(RegistryInstruction::TransferFeeAuthority)
    ));
    assert!(matches!(
        RegistryInstruction::unpack(&[6]),
        Ok(RegistryInstruction::TransferTokenAuthority)
    ));
    assert!(matches!(
        RegistryInstruction::unpack(&[7]),
        Err(RegistryError::InvalidInstructionData)
    ));
    assert!(matches!(
        RegistryInstruction::unpack(&[]),
        Err(RegistryError::InvalidInstructionData)
    ));
}

#[test]
fn error_codes_and_messages() {
    assert_eq!(RegistryError::NotYetInitialized.code(), 0);
    assert_eq!(RegistryError::InvalidInstructionData.code(), 20);
    assert_eq!(RegistryError::PreviouslyDeletedMint.code(), 21);
    assert_eq!(RegistryError::Codec(CodecError::TooLarge).code(), 24);
    assert_eq!(
        RegistryError::NotYetInitialized.message(),
        "RegistryError::NotYetInitialized - The registry has not yet been initialized."
    );
    assert_eq!(
        RegistryError::Codec(CodecError::Truncated).message(),
        "CodecError::Truncated - A record slot holds fewer bytes than its declared length."
    );
}
