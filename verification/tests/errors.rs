//! One triggering input for each reachable error variant.

use apl_amm::account::AccountInfo;
use apl_amm::amm::instruction::AmmInstruction;
use apl_amm::amm::processor::Processor as AmmProcessor;
use apl_amm::program_error::ProgramError;
use apl_amm::pubkey::Pubkey;
use apl_amm::sats::error::SatsError;
use apl_amm::sats::processor::process_instruction as sats_process;
use apl_amm::sats::state::UtxoVault;
use apl_amm::token::error::TokenError;
use apl_amm::token::instruction::{AuthorityType, TokenInstruction};
use apl_amm::token::processor::Processor as TokenProcessor;
use apl_amm::token::state::{Account, AccountState, Mint};

fn key(tag: u8) -> Pubkey {
    Pubkey { bytes: [tag; 32] }
}

fn program_id() -> Pubkey {
    key(200)
}

fn account(account_key: Pubkey, owner: Pubkey, is_signer: bool, data: Vec<u8>) -> AccountInfo {
    AccountInfo {
        key: account_key,
        owner,
        is_signer,
        is_writable: true,
        data,
    }
}

fn initialized_mint(authority: Option<Pubkey>, freeze: Option<Pubkey>) -> Vec<u8> {
    let mint = Mint {
        mint_authority: authority,
        supply: 100,
        decimals: 2,
        is_initialized: true,
        freeze_authority: freeze,
    };
    let mut data = Vec::new();
    mint.pack_into_slice(&mut data);
    data
}

fn holding(mint: Pubkey, owner: Pubkey, amount: u64, state: AccountState) -> Vec<u8> {
    let account = Account {
        mint,
        owner,
        amount,
        delegate: None,
        state,
        is_native: None,
        delegated_amount: 0,
        close_authority: None,
    };
    let mut data = Vec::new();
    account.pack_into_slice(&mut data);
    data
}

#[test]
fn not_enough_account_keys() {
    let mut accounts: Vec<AccountInfo> = Vec::new();
    let instruction = AmmInstruction::InitializePool {
        fee_numerator: 1,
        fee_denominator: 2,
    };
    let result = AmmProcessor::process(&program_id(), &mut accounts, &instruction.pack());
    assert_eq!(result.unwrap_err(), ProgramError::NotEnoughAccountKeys);
}

#[test]
fn uninitialized_account_from_checked_unpack() {
    let data = holding(key(1), key(2), 0, AccountState::Uninitialized);
    assert_eq!(
        Account::unpack(&data).unwrap_err(),
        ProgramError::UninitializedAccount
    );
}

#[test]
fn fixed_supply_when_mint_has_no_authority() {
    let mut accounts = vec![
        account(key(1), program_id(), false, initialized_mint(None, None)),
        account(key(2), program_id(), false, holding(key(1), key(4), 0, AccountState::Initialized)),
        account(key(9), key(0), true, vec![]),
    ];
    let result = TokenProcessor::process(
        &program_id(),
        &mut accounts,
        TokenInstruction::MintTo { amount: 1 },
    );
    assert_eq!(result.unwrap_err(), ProgramError::from(TokenError::FixedSupply));
}

#[test]
fn mint_decimals_mismatch() {
    let authority = key(9);
    let mut accounts = vec![
        account(key(1), program_id(), false, initialized_mint(Some(authority), None)),
        account(key(2), program_id(), false, holding(key(1), key(4), 0, AccountState::Initialized)),
        account(authority, key(0), true, vec![]),
    ];
    let result = TokenProcessor::process(
        &program_id(),
        &mut accounts,
        TokenInstruction::MintToChecked {
            amount: 1,
            decimals: 5,
        },
    );
    assert_eq!(
        result.unwrap_err(),
        ProgramError::from(TokenError::MintDecimalsMismatch)
    );
}

#[test]
fn overflow_on_supply_wrap() {
    let authority = key(9);
    let mint = Mint {
        mint_authority: Some(authority),
        supply: u64::MAX,
        decimals: 2,
        is_initialized: true,
        freeze_authority: None,
    };
    let mut mint_data = Vec::new();
    mint.pack_into_slice(&mut mint_data);
    let mut accounts = vec![
        account(key(1), program_id(), false, mint_data),
        account(key(2), program_id(), false, holding(key(1), key(4), 0, AccountState::Initialized)),
        account(authority, key(0), true, vec![]),
    ];
    let result = TokenProcessor::process(
        &program_id(),
        &mut accounts,
        TokenInstruction::MintTo { amount: 1 },
    );
    assert_eq!(result.unwrap_err(), ProgramError::from(TokenError::Overflow));
}

#[test]
fn invalid_state_on_double_freeze() {
    let authority = key(9);
    let mut accounts = vec![
        account(key(2), program_id(), false, holding(key(1), key(4), 0, AccountState::Frozen)),
        account(key(1), program_id(), false, initialized_mint(Some(authority), Some(authority))),
        account(authority, key(0), true, vec![]),
    ];
    let result = TokenProcessor::process(
        &program_id(),
        &mut accounts,
        TokenInstruction::FreezeAccount,
    );
    assert_eq!(result.unwrap_err(), ProgramError::from(TokenError::InvalidState));
}

#[test]
fn mint_cannot_freeze_without_authority() {
    let authority = key(9);
    let mut accounts = vec![
        account(key(2), program_id(), false, holding(key(1), key(4), 0, AccountState::Initialized)),
        account(key(1), program_id(), false, initialized_mint(Some(authority), None)),
        account(authority, key(0), true, vec![]),
    ];
    let result = TokenProcessor::process(
        &program_id(),
        &mut accounts,
        TokenInstruction::FreezeAccount,
    );
    assert_eq!(
        result.unwrap_err(),
        ProgramError::from(TokenError::MintCannotFreeze)
    );
}

#[test]
fn authority_type_not_supported_on_holding() {
    let owner = key(5);
    let mut accounts = vec![
        account(key(1), program_id(), false, holding(key(3), owner, 0, AccountState::Initialized)),
        account(owner, key(0), true, vec![]),
    ];
    let result = TokenProcessor::process(
        &program_id(),
        &mut accounts,
        TokenInstruction::SetAuthority {
            authority_type: AuthorityType::MintTokens,
            new_authority: None,
        },
    );
    assert_eq!(
        result.unwrap_err(),
        ProgramError::from(TokenError::AuthorityTypeNotSupported)
    );
}

#[test]
fn invalid_argument_on_unsized_record() {
    let mut accounts = vec![
        account(key(1), program_id(), false, vec![0u8; 10]),
        account(key(5), key(0), true, vec![]),
    ];
    let result = TokenProcessor::process(
        &program_id(),
        &mut accounts,
        TokenInstruction::SetAuthority {
            authority_type: AuthorityType::AccountOwner,
            new_authority: Some(key(6)),
        },
    );
    assert_eq!(result.unwrap_err(), ProgramError::InvalidArgument);
}

#[test]
fn invalid_mint_on_malformed_mint_record() {
    let mut accounts = vec![account(key(1), program_id(), false, vec![0u8; 82])];
    let result = TokenProcessor::process(
        &program_id(),
        &mut accounts,
        TokenInstruction::GetAccountDataSize,
    );
    assert_eq!(result.unwrap_err(), ProgramError::from(TokenError::InvalidMint));
}

#[test]
fn token_invalid_instruction_on_owner_removal() {
    let owner = key(5);
    let mut accounts = vec![
        account(key(1), program_id(), false, holding(key(3), owner, 0, AccountState::Initialized)),
        account(owner, key(0), true, vec![]),
    ];
    let result = TokenProcessor::process(
        &program_id(),
        &mut accounts,
        TokenInstruction::SetAuthority {
            authority_type: AuthorityType::AccountOwner,
            new_authority: None,
        },
    );
    assert_eq!(
        result.unwrap_err(),
        ProgramError::from(TokenError::InvalidInstruction)
    );
}

#[test]
fn invalid_number_of_signers() {
    // no signer accounts at all
    let mut accounts = vec![account(key(1), program_id(), false, vec![0u8; 355])];
    let result = TokenProcessor::process(
        &program_id(),
        &mut accounts,
        TokenInstruction::InitializeMultisig { m: 1 },
    );
    assert_eq!(
        result.unwrap_err(),
        ProgramError::from(TokenError::InvalidNumberOfProvidedSigners)
    );

    // more required signers than the record can hold
    let mut accounts = vec![
        account(key(1), program_id(), false, vec![0u8; 355]),
        account(key(2), key(0), true, vec![]),
    ];
    let result = TokenProcessor::process(
        &program_id(),
        &mut accounts,
        TokenInstruction::InitializeMultisig { m: 12 },
    );
    assert_eq!(
        result.unwrap_err(),
        ProgramError::from(TokenError::InvalidNumberOfRequiredSigners)
    );
}

#[test]
fn invalid_burn_authority_without_signature() {
    let program = key(99);
    let mut vault_data = Vec::new();
    UtxoVault::new(key(1), key(3)).pack_into_slice(&mut vault_data);
    let mut accounts = vec![
        account(key(6), key(0), false, vec![]),
        account(key(2), key(0), false, vault_data),
        account(key(4), key(0), false, vec![]),
        account(key(3), key(0), false, vec![]),
    ];
    let mut input = vec![2u8];
    input.extend_from_slice(&1u64.to_le_bytes());
    input.extend_from_slice(&0u32.to_le_bytes());
    let result = sats_process(&program, &mut accounts, &input);
    assert_eq!(
        result.unwrap_err(),
        ProgramError::from(SatsError::InvalidBurnAuthority)
    );
}

#[test]
fn invalid_utxo_on_vault_overflow() {
    let program = key(99);
    let authority = key(1);
    let mut vault = UtxoVault::new(authority, key(3));
    vault.total_amount = u64::MAX;
    let mut vault_data = Vec::new();
    vault.pack_into_slice(&mut vault_data);
    let mut accounts = vec![
        account(authority, key(0), true, vec![]),
        account(key(2), key(0), false, vault_data),
        account(key(4), key(0), false, vec![0u8; 128]),
        account(key(3), key(0), false, vec![]),
        account(key(5), key(0), false, vec![]),
    ];
    let mut input = vec![1u8];
    input.extend_from_slice(&[7u8; 32]);
    input.extend_from_slice(&0u32.to_le_bytes());
    input.extend_from_slice(&1u64.to_le_bytes());
    input.extend_from_slice(&0u32.to_le_bytes());
    let result = sats_process(&program, &mut accounts, &input);
    assert_eq!(result.unwrap_err(), ProgramError::from(SatsError::InvalidUtxo));
}
