//! Tests of the vault program.

use apl_amm::account::AccountInfo;
use apl_amm::program_error::ProgramError;
use apl_amm::pubkey::Pubkey;
use apl_amm::sats::error::SatsError;
use apl_amm::sats::instruction::SatsInstruction;
use apl_amm::sats::processor::process_instruction;
use apl_amm::sats::state::{SerializableOutPoint, UtxoVault, UTXO_VAULT_LEN};

fn key(tag: u8) -> Pubkey {
    Pubkey { bytes: [tag; 32] }
}

fn err_of(e: SatsError) -> ProgramError {
    e.into()
}

fn account(account_key: Pubkey, is_signer: bool, data: Vec<u8>) -> AccountInfo {
    AccountInfo {
        key: account_key,
        owner: key(0),
        is_signer,
        is_writable: true,
        data,
    }
}

fn deposit_bytes(txid: [u8; 32], vout: u32, amount: u64, script: &[u8]) -> Vec<u8> {
    let mut bytes = vec![1u8];
    bytes.extend_from_slice(&txid);
    bytes.extend_from_slice(&vout.to_le_bytes());
    bytes.extend_from_slice(&amount.to_le_bytes());
    bytes.extend_from_slice(&(script.len() as u32).to_le_bytes());
    bytes.extend_from_slice(script);
    bytes
}

fn withdraw_bytes(amount: u64, address: &[u8]) -> Vec<u8> {
    let mut bytes = vec![2u8];
    bytes.extend_from_slice(&amount.to_le_bytes());
    bytes.extend_from_slice(&(address.len() as u32).to_le_bytes());
    bytes.extend_from_slice(address);
    bytes
}

#[test]
fn initialize_vault_records_authority_and_mint() {
    let program = key(99);
    let authority = key(1);
    let mut accounts = vec![
        account(authority, true, vec![]),
        account(key(2), false, vec![0u8; UTXO_VAULT_LEN]),
        account(key(3), false, vec![]),
    ];
    process_instruction(&program, &mut accounts, &[0u8]).unwrap();
    let vault = UtxoVault::unpack(&accounts[1].data).unwrap();
    assert_eq!(vault.authority, authority);
    assert_eq!(vault.mint, key(3));
    assert_eq!(vault.total_amount, 0);
    assert_eq!(vault.utxo_count, 0);
    assert!(vault.is_initialized);
}

#[test]
fn initialize_vault_requires_signature() {
    let program = key(99);
    let mut accounts = vec![
        account(key(1), false, vec![]),
        account(key(2), false, vec![0u8; UTXO_VAULT_LEN]),
        account(key(3), false, vec![]),
    ];
    let result = process_instruction(&program, &mut accounts, &[0u8]);
    assert_eq!(result.unwrap_err(), err_of(SatsError::InvalidMintAuthority));
}

#[test]
fn deposit_credits_vault_and_stores_utxo() {
    let program = key(99);
    let authority = key(1);
    let mut vault_data = Vec::new();
    UtxoVault::new(authority, key(3)).pack_into_slice(&mut vault_data);
    let mut accounts = vec![
        account(authority, true, vec![]),
        account(key(2), false, vault_data),
        account(key(4), false, vec![0u8; 128]),
        account(key(3), false, vec![]),
        account(key(5), false, vec![]),
    ];
    let txid = [7u8; 32];
    let script = [0x51u8, 0x20];
    process_instruction(
        &program,
        &mut accounts,
        &deposit_bytes(txid, 3, 50_000, &script),
    )
    .unwrap();

    let vault = UtxoVault::unpack(&accounts[1].data).unwrap();
    assert_eq!(vault.total_amount, 50_000);
    assert_eq!(vault.utxo_count, 1);

    // the locked output's record sits in the output account's prefix
    let data = &accounts[2].data;
    assert_eq!(&data[0..32], &txid);
    assert_eq!(&data[32..36], &3u32.to_le_bytes());
    assert_eq!(&data[36..44], &50_000u64.to_le_bytes());
    assert_eq!(&data[44..48], &2u32.to_le_bytes());
    assert_eq!(&data[48..50], &script);
    assert_eq!(data[50], 0); // not spent
}

#[test]
fn deposit_rejects_foreign_authority() {
    let program = key(99);
    let mut vault_data = Vec::new();
    UtxoVault::new(key(1), key(3)).pack_into_slice(&mut vault_data);
    let mut accounts = vec![
        account(key(8), true, vec![]),
        account(key(2), false, vault_data),
        account(key(4), false, vec![0u8; 128]),
        account(key(3), false, vec![]),
        account(key(5), false, vec![]),
    ];
    let result = process_instruction(
        &program,
        &mut accounts,
        &deposit_bytes([7u8; 32], 0, 1, &[]),
    );
    assert_eq!(result.unwrap_err(), err_of(SatsError::InvalidMintAuthority));
}

#[test]
fn withdraw_debits_vault_and_checks_balance() {
    let program = key(99);
    let owner = key(6);
    let mut vault = UtxoVault::new(key(1), key(3));
    vault.total_amount = 10_000;
    let mut vault_data = Vec::new();
    vault.pack_into_slice(&mut vault_data);
    let mut accounts = vec![
        account(owner, true, vec![]),
        account(key(2), false, vault_data),
        account(key(4), false, vec![]),
        account(key(3), false, vec![]),
    ];
    process_instruction(
        &program,
        &mut accounts,
        &withdraw_bytes(4_000, b"bc1qexample"),
    )
    .unwrap();
    assert_eq!(UtxoVault::unpack(&accounts[1].data).unwrap().total_amount, 6_000);

    let result = process_instruction(
        &program,
        &mut accounts,
        &withdraw_bytes(7_000, b"bc1qexample"),
    );
    assert_eq!(result.unwrap_err(), err_of(SatsError::InsufficientBalance));
}

#[test]
fn instruction_decoding_is_strict() {
    // unknown tag
    assert_eq!(
        SatsInstruction::unpack(&[9u8]).unwrap_err(),
        ProgramError::InvalidInstructionData
    );
    // trailing bytes after InitializeVault
    assert_eq!(
        SatsInstruction::unpack(&[0u8, 0u8]).unwrap_err(),
        ProgramError::InvalidInstructionData
    );
    // truncated deposit
    assert_eq!(
        SatsInstruction::unpack(&deposit_bytes([1u8; 32], 0, 5, &[1, 2, 3])[..40]).unwrap_err(),
        ProgramError::InvalidInstructionData
    );
    // a correct deposit decodes
    match SatsInstruction::unpack(&deposit_bytes([1u8; 32], 7, 5, &[1, 2, 3])).unwrap() {
        SatsInstruction::DepositUtxo {
            outpoint: SerializableOutPoint { txid, vout },
            amount,
            script_pubkey,
        } => {
            assert_eq!(txid, [1u8; 32]);
            assert_eq!(vout, 7);
            assert_eq!(amount, 5);
            assert_eq!(script_pubkey, vec![1, 2, 3]);
        }
        other => panic!("unexpected instruction {:?}", other),
    }
    // a correct withdrawal decodes
    match SatsInstruction::unpack(&withdraw_bytes(42, b"addr")).unwrap() {
        SatsInstruction::WithdrawUtxo {
            amount,
            bitcoin_address,
        } => {
            assert_eq!(amount, 42);
            assert_eq!(bitcoin_address, b"addr".to_vec());
        }
        other => panic!("unexpected instruction {:?}", other),
    }
}

#[test]
fn vault_codec_round_trip() {
    let mut vault = UtxoVault::new(key(1), key(2));
    vault.total_amount = 123_456;
    vault.utxo_count = 9;
    let mut data = Vec::new();
    vault.pack_into_slice(&mut data);
    assert_eq!(data.len(), UTXO_VAULT_LEN);
    assert_eq!(UtxoVault::unpack(&data).unwrap(), vault);
}
