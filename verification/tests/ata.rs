//! Tests of the associated-token-account program.

use apl_amm::account::AccountInfo;
use apl_amm::ata::{id, process_instruction, AtaEffect};
use apl_amm::program_error::ProgramError;
use apl_amm::pubkey::Pubkey;

fn key(tag: u8) -> Pubkey {
    Pubkey { bytes: [tag; 32] }
}

fn account(account_key: Pubkey) -> AccountInfo {
    AccountInfo {
        key: account_key,
        owner: key(0),
        is_signer: false,
        is_writable: true,
        data: vec![],
    }
}

fn creation_input(txid: [u8; 32], vout: u32) -> Vec<u8> {
    let mut input = txid.to_vec();
    input.extend_from_slice(&vout.to_le_bytes());
    input
}

#[test]
fn id_is_the_program_name() {
    assert_eq!(&id().bytes[..], b"associated-token-account00000000");
}

#[test]
fn creation_effects_follow_the_request() {
    let program = id();
    let derived = key(1);
    let accounts = vec![
        account(derived),
        account(key(2)), // wallet
        account(key(3)), // mint
        account(key(4)), // account system
        account(key(5)), // token program
    ];
    let effects = process_instruction(
        &program,
        &accounts,
        &creation_input([9u8; 32], 4),
        &derived,
    )
    .unwrap();
    assert_eq!(effects.len(), 4);
    match &effects[0] {
        AtaEffect::CreateAccount { txid, vout, account } => {
            assert_eq!(txid, &vec![9u8; 32]);
            assert_eq!(*vout, 4);
            assert_eq!(*account, derived);
        }
        other => panic!("unexpected effect {:?}", other),
    }
    match &effects[1] {
        AtaEffect::WriteZeros { offset, length, .. } => {
            assert_eq!(*offset, 0);
            assert_eq!(*length, 165);
        }
        other => panic!("unexpected effect {:?}", other),
    }
    match &effects[3] {
        AtaEffect::InitializeAccount { account, mint, wallet } => {
            assert_eq!(*account, derived);
            assert_eq!(*mint, key(3));
            assert_eq!(*wallet, key(2));
        }
        other => panic!("unexpected effect {:?}", other),
    }
}

#[test]
fn mismatched_derivation_is_rejected() {
    let program = id();
    let accounts = vec![
        account(key(1)),
        account(key(2)),
        account(key(3)),
        account(key(4)),
        account(key(5)),
    ];
    let result = process_instruction(
        &program,
        &accounts,
        &creation_input([9u8; 32], 4),
        &key(8),
    );
    assert_eq!(result.unwrap_err(), ProgramError::InvalidSeeds);
}

#[test]
fn short_input_is_rejected() {
    let program = id();
    let accounts = vec![
        account(key(1)),
        account(key(2)),
        account(key(3)),
        account(key(4)),
        account(key(5)),
    ];
    let result = process_instruction(&program, &accounts, &[0u8; 35], &key(1));
    assert_eq!(result.unwrap_err(), ProgramError::InvalidInstructionData);
}
