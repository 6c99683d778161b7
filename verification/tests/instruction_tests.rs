use spl_transfer_hook_interface::instruction::TransferHookInstruction;
use transfer_hook::error::HookError;
use transfer_hook::instruction::{amount_le_bytes, execute_instruction_data, fallback};

const EXECUTE_DISCRIMINATOR: [u8; 8] = [105, 37, 101, 197, 75, 251, 102, 26];

#[test]
fn execute_data_from_interface_crate_dispatches() {
    // pack with the real interface crate, dispatch with the library
    let data = TransferHookInstruction::Execute { amount: 42 }.pack();
    assert_eq!(fallback(&data), Ok(42));
}

#[test]
fn execute_data_built_by_hand_dispatches() {
    let mut data = EXECUTE_DISCRIMINATOR.to_vec();
    data.extend_from_slice(&5_000_000_000u64.to_le_bytes());
    assert_eq!(fallback(&data), Ok(5_000_000_000));
    // the hand-built bytes are exactly what the interface crate packs
    assert_eq!(data, TransferHookInstruction::Execute { amount: 5_000_000_000 }.pack());
}

#[test]
fn short_data_is_rejected() {
    assert_eq!(fallback(&[]), Err(HookError::InvalidInstructionData));
    assert_eq!(fallback(&EXECUTE_DISCRIMINATOR[..7]), Err(HookError::InvalidInstructionData));
    // execute discriminator but a truncated amount
    let mut data = EXECUTE_DISCRIMINATOR.to_vec();
    data.extend_from_slice(&[1, 2, 3]);
    assert_eq!(fallback(&data), Err(HookError::InvalidInstructionData));
}

#[test]
fn unknown_discriminator_is_rejected() {
    let mut data = vec![0u8; 16];
    data[0] = 200;
    assert_eq!(fallback(&data), Err(HookError::InvalidInstructionData));
}

#[test]
fn list_management_instructions_are_rejected() {
    let init = TransferHookInstruction::InitializeExtraAccountMetaList {
        extra_account_metas: Vec::new(),
    }
    .pack();
    assert_eq!(fallback(&init), Err(HookError::InvalidInstructionData));
    let update = TransferHookInstruction::UpdateExtraAccountMetaList {
        extra_account_metas: Vec::new(),
    }
    .pack();
    assert_eq!(fallback(&update), Err(HookError::InvalidInstructionData));
}

#[test]
fn encoder_matches_interface_crate_pack() {
    let data = execute_instruction_data(77);
    assert_eq!(data, TransferHookInstruction::Execute { amount: 77 }.pack());
    assert_eq!(fallback(&data), Ok(77));
    let data = execute_instruction_data(u64::MAX);
    assert_eq!(data, TransferHookInstruction::Execute { amount: u64::MAX }.pack());
    assert_eq!(fallback(&data), Ok(u64::MAX));
}

#[test]
fn amount_encoding_is_little_endian() {
    let amount: u64 = 0x0102030405060708;
    assert_eq!(amount_le_bytes(amount), amount.to_le_bytes().to_vec());
    assert_eq!(amount_le_bytes(0), vec![0u8; 8]);
}

#[test]
fn amount_bytes_are_little_endian() {
    let mut data = EXECUTE_DISCRIMINATOR.to_vec();
    data.extend_from_slice(&[1, 0, 0, 0, 0, 0, 0, 0]);
    assert_eq!(fallback(&data), Ok(1));
    let mut data = EXECUTE_DISCRIMINATOR.to_vec();
    data.extend_from_slice(&[0, 1, 0, 0, 0, 0, 0, 0]);
    assert_eq!(fallback(&data), Ok(256));
}
