//! Tests of the token ledger's processor and records.

use apl_amm::account::AccountInfo;
use apl_amm::program_error::ProgramError;
use apl_amm::pubkey::Pubkey;
use apl_amm::token::error::TokenError;
use apl_amm::token::instruction::{AuthorityType, TokenInstruction};
use apl_amm::token::processor::Processor;
use apl_amm::token::state::{Account, AccountState, Mint, Multisig};

fn key(tag: u8) -> Pubkey {
    Pubkey { bytes: [tag; 32] }
}

fn err_of(e: TokenError) -> ProgramError {
    e.into()
}

fn program_id() -> Pubkey {
    key(200)
}

fn account_info(account_key: Pubkey, owner: Pubkey, is_signer: bool, data: Vec<u8>) -> AccountInfo {
    AccountInfo {
        key: account_key,
        owner,
        is_signer,
        is_writable: true,
        data,
    }
}

fn fresh_mint_account(mint_key: Pubkey) -> AccountInfo {
    account_info(mint_key, program_id(), false, vec![0u8; 82])
}

fn initialized_mint_account(mint_key: Pubkey, authority: Pubkey, supply: u64) -> AccountInfo {
    let mint = Mint {
        mint_authority: Some(authority),
        supply,
        decimals: 2,
        is_initialized: true,
        freeze_authority: Some(authority),
    };
    let mut data = Vec::new();
    mint.pack_into_slice(&mut data);
    account_info(mint_key, program_id(), false, data)
}

fn holding_account(account_key: Pubkey, mint: Pubkey, owner: Pubkey, amount: u64) -> AccountInfo {
    let account = Account {
        mint,
        owner,
        amount,
        delegate: None,
        state: AccountState::Initialized,
        is_native: None,
        delegated_amount: 0,
        close_authority: None,
    };
    let mut data = Vec::new();
    account.pack_into_slice(&mut data);
    account_info(account_key, program_id(), false, data)
}

fn signer(account_key: Pubkey) -> AccountInfo {
    account_info(account_key, key(0), true, vec![])
}

#[test]
fn initialize_mint_records_fields() {
    let mut accounts = vec![fresh_mint_account(key(1))];
    let result = Processor::process(
        &program_id(),
        &mut accounts,
        TokenInstruction::InitializeMint {
            decimals: 6,
            mint_authority: key(2),
            freeze_authority: None,
        },
    );
    assert!(result.is_ok());
    let mint = Mint::unpack(&accounts[0].data).unwrap();
    assert_eq!(mint.mint_authority, Some(key(2)));
    assert_eq!(mint.decimals, 6);
    assert!(mint.is_initialized);
    assert_eq!(mint.freeze_authority, None);

    // a second initialization is rejected
    let result = Processor::process(
        &program_id(),
        &mut accounts,
        TokenInstruction::InitializeMint2 {
            decimals: 6,
            mint_authority: key(2),
            freeze_authority: None,
        },
    );
    assert_eq!(result.unwrap_err(), err_of(TokenError::AlreadyInUse));
}

#[test]
fn initialize_account_records_mint_and_owner() {
    let mut accounts = vec![
        account_info(key(1), program_id(), false, vec![0u8; 165]),
        initialized_mint_account(key(2), key(3), 0),
    ];
    let result = Processor::process(
        &program_id(),
        &mut accounts,
        TokenInstruction::InitializeAccount2 { owner: key(4) },
    );
    assert!(result.is_ok());
    let account = Account::unpack(&accounts[0].data).unwrap();
    assert_eq!(account.mint, key(2));
    assert_eq!(account.owner, key(4));
    assert_eq!(account.amount, 0);
    assert_eq!(account.state, AccountState::Initialized);
}

#[test]
fn mint_to_credits_holding_and_supply() {
    let authority = key(9);
    let mut accounts = vec![
        initialized_mint_account(key(1), authority, 500),
        holding_account(key(2), key(1), key(4), 10),
        signer(authority),
    ];
    let result = Processor::process(
        &program_id(),
        &mut accounts,
        TokenInstruction::MintTo { amount: 40 },
    );
    assert!(result.is_ok());
    assert_eq!(Mint::unpack(&accounts[0].data).unwrap().supply, 540);
    assert_eq!(Account::unpack(&accounts[1].data).unwrap().amount, 50);
}

#[test]
fn mint_to_rejects_wrong_authority() {
    let mut accounts = vec![
        initialized_mint_account(key(1), key(9), 500),
        holding_account(key(2), key(1), key(4), 10),
        signer(key(8)),
    ];
    let result = Processor::process(
        &program_id(),
        &mut accounts,
        TokenInstruction::MintTo { amount: 40 },
    );
    assert_eq!(result.unwrap_err(), err_of(TokenError::OwnerMismatch));
}

#[test]
fn transfer_moves_balance() {
    let owner = key(5);
    let mut accounts = vec![
        holding_account(key(1), key(3), owner, 100),
        holding_account(key(2), key(3), key(6), 1),
        signer(owner),
    ];
    let result = Processor::process(
        &program_id(),
        &mut accounts,
        TokenInstruction::Transfer { amount: 30 },
    );
    assert!(result.is_ok());
    assert_eq!(Account::unpack(&accounts[0].data).unwrap().amount, 70);
    assert_eq!(Account::unpack(&accounts[1].data).unwrap().amount, 31);
}

#[test]
fn transfer_rejects_insufficient_funds_and_mint_mismatch() {
    let owner = key(5);
    let mut accounts = vec![
        holding_account(key(1), key(3), owner, 10),
        holding_account(key(2), key(3), key(6), 0),
        signer(owner),
    ];
    let result = Processor::process(
        &program_id(),
        &mut accounts,
        TokenInstruction::Transfer { amount: 30 },
    );
    assert_eq!(result.unwrap_err(), err_of(TokenError::InsufficientFunds));

    let mut accounts = vec![
        holding_account(key(1), key(3), owner, 100),
        holding_account(key(2), key(4), key(6), 0),
        signer(owner),
    ];
    let result = Processor::process(
        &program_id(),
        &mut accounts,
        TokenInstruction::Transfer { amount: 30 },
    );
    assert_eq!(result.unwrap_err(), err_of(TokenError::MintMismatch));
}

#[test]
fn transfer_requires_signature() {
    let owner = key(5);
    let mut accounts = vec![
        holding_account(key(1), key(3), owner, 100),
        holding_account(key(2), key(3), key(6), 0),
        account_info(owner, key(0), false, vec![]),
    ];
    let result = Processor::process(
        &program_id(),
        &mut accounts,
        TokenInstruction::Transfer { amount: 30 },
    );
    assert_eq!(result.unwrap_err(), ProgramError::MissingRequiredSignature);
}

#[test]
fn approve_then_delegate_transfer_spends_allowance() {
    let owner = key(5);
    let delegate = key(7);
    let mut accounts = vec![
        holding_account(key(1), key(3), owner, 100),
        account_info(delegate, key(0), false, vec![]),
        signer(owner),
    ];
    let result = Processor::process(
        &program_id(),
        &mut accounts,
        TokenInstruction::Approve { amount: 40 },
    );
    assert!(result.is_ok());
    let source = Account::unpack(&accounts[0].data).unwrap();
    assert_eq!(source.delegate, Some(delegate));
    assert_eq!(source.delegated_amount, 40);

    // the delegate moves part of the allowance
    let source_data = accounts[0].data.clone();
    let mut accounts = vec![
        AccountInfo {
            data: source_data,
            ..holding_account(key(1), key(3), owner, 0)
        },
        holding_account(key(2), key(3), key(6), 0),
        signer(delegate),
    ];
    let result = Processor::process(
        &program_id(),
        &mut accounts,
        TokenInstruction::Transfer { amount: 15 },
    );
    assert!(result.is_ok());
    let source = Account::unpack(&accounts[0].data).unwrap();
    assert_eq!(source.amount, 85);
    assert_eq!(source.delegated_amount, 25);
    assert_eq!(source.delegate, Some(delegate));

    // spending beyond the allowance fails
    let result = Processor::process(
        &program_id(),
        &mut accounts,
        TokenInstruction::Transfer { amount: 26 },
    );
    assert_eq!(result.unwrap_err(), err_of(TokenError::InsufficientFunds));
}

#[test]
fn revoke_clears_delegation() {
    let owner = key(5);
    let mut accounts = vec![
        holding_account(key(1), key(3), owner, 100),
        account_info(key(7), key(0), false, vec![]),
        signer(owner),
    ];
    Processor::process(
        &program_id(),
        &mut accounts,
        TokenInstruction::Approve { amount: 40 },
    )
    .unwrap();
    let mut accounts = vec![accounts.remove(0), signer(owner)];
    Processor::process(&program_id(), &mut accounts, TokenInstruction::Revoke).unwrap();
    let source = Account::unpack(&accounts[0].data).unwrap();
    assert_eq!(source.delegate, None);
    assert_eq!(source.delegated_amount, 0);
}

#[test]
fn burn_debits_holding_and_supply() {
    let mut accounts = vec![
        holding_account(key(2), key(1), key(4), 50),
        initialized_mint_account(key(1), key(9), 500),
        signer(key(4)),
    ];
    let result = Processor::process(
        &program_id(),
        &mut accounts,
        TokenInstruction::Burn { amount: 20 },
    );
    assert!(result.is_ok());
    assert_eq!(Account::unpack(&accounts[0].data).unwrap().amount, 30);
    assert_eq!(Mint::unpack(&accounts[1].data).unwrap().supply, 480);
}

#[test]
fn freeze_and_thaw_toggle_state() {
    let authority = key(9);
    let mut accounts = vec![
        holding_account(key(2), key(1), key(4), 50),
        initialized_mint_account(key(1), authority, 500),
        signer(authority),
    ];
    Processor::process(&program_id(), &mut accounts, TokenInstruction::FreezeAccount).unwrap();
    assert_eq!(
        Account::unpack(&accounts[0].data).unwrap().state,
        AccountState::Frozen
    );

    // a frozen holding cannot burn
    let result = Processor::process(
        &program_id(),
        &mut accounts,
        TokenInstruction::Burn { amount: 1 },
    );
    assert_eq!(result.unwrap_err(), err_of(TokenError::AccountFrozen));

    Processor::process(&program_id(), &mut accounts, TokenInstruction::ThawAccount).unwrap();
    assert_eq!(
        Account::unpack(&accounts[0].data).unwrap().state,
        AccountState::Initialized
    );
}

#[test]
fn set_authority_replaces_owner() {
    let owner = key(5);
    let mut accounts = vec![
        holding_account(key(1), key(3), owner, 100),
        signer(owner),
    ];
    let result = Processor::process(
        &program_id(),
        &mut accounts,
        TokenInstruction::SetAuthority {
            authority_type: AuthorityType::AccountOwner,
            new_authority: Some(key(6)),
        },
    );
    assert!(result.is_ok());
    assert_eq!(Account::unpack(&accounts[0].data).unwrap().owner, key(6));

    // the old owner can no longer act
    let mut accounts = vec![accounts.remove(0), signer(owner)];
    let result = Processor::process(
        &program_id(),
        &mut accounts,
        TokenInstruction::SetAuthority {
            authority_type: AuthorityType::AccountOwner,
            new_authority: Some(key(7)),
        },
    );
    assert_eq!(result.unwrap_err(), err_of(TokenError::OwnerMismatch));
}

#[test]
fn initialize_multisig_and_validate_signers() {
    let mut accounts = vec![
        account_info(key(1), program_id(), false, vec![0u8; 355]),
        signer(key(11)),
        signer(key(12)),
        signer(key(13)),
    ];
    Processor::process(
        &program_id(),
        &mut accounts,
        TokenInstruction::InitializeMultisig { m: 2 },
    )
    .unwrap();
    let multisig = Multisig::unpack(&accounts[0].data).unwrap();
    assert_eq!(multisig.m, 2);
    assert_eq!(multisig.n, 3);
    assert_eq!(multisig.signers[0], key(11));
    assert_eq!(multisig.signers[2], key(13));

    // a holding owned by the multisig moves with two signatures
    let multisig_account = |is_signer| AccountInfo {
        key: key(1),
        owner: program_id(),
        is_signer,
        is_writable: false,
        data: accounts[0].data.clone(),
    };
    let mut transfer_accounts = vec![
        holding_account(key(2), key(3), key(1), 100),
        holding_account(key(4), key(3), key(6), 0),
        multisig_account(false),
        signer(key(11)),
        signer(key(13)),
    ];
    Processor::process(
        &program_id(),
        &mut transfer_accounts,
        TokenInstruction::Transfer { amount: 10 },
    )
    .unwrap();
    assert_eq!(
        Account::unpack(&transfer_accounts[0].data).unwrap().amount,
        90
    );

    // one signature is not enough
    let mut transfer_accounts = vec![
        holding_account(key(2), key(3), key(1), 100),
        holding_account(key(4), key(3), key(6), 0),
        multisig_account(false),
        signer(key(11)),
    ];
    let result = Processor::process(
        &program_id(),
        &mut transfer_accounts,
        TokenInstruction::Transfer { amount: 10 },
    );
    assert_eq!(result.unwrap_err(), ProgramError::MissingRequiredSignature);
}

#[test]
fn close_account_zeroes_and_reassigns() {
    let mut accounts = vec![
        holding_account(key(1), key(3), key(5), 0),
        holding_account(key(2), key(3), key(5), 0),
        signer(key(5)),
    ];
    Processor::process(&program_id(), &mut accounts, TokenInstruction::CloseAccount).unwrap();
    assert!(accounts[0].data.iter().all(|b| *b == 0));
    assert_eq!(accounts[0].owner, Pubkey { bytes: [b'1'; 32] });
}

#[test]
fn get_account_data_size_reports_holding_length() {
    let mut accounts = vec![initialized_mint_account(key(1), key(9), 0)];
    let bytes = Processor::process(
        &program_id(),
        &mut accounts,
        TokenInstruction::GetAccountDataSize,
    )
    .unwrap();
    assert_eq!(bytes, 165u64.to_le_bytes().to_vec());
}

#[test]
fn amount_to_ui_amount_trims_zeros() {
    // the fixture mint uses two fractional digits
    let mut accounts = vec![initialized_mint_account(key(1), key(9), 0)];
    let bytes = Processor::process(
        &program_id(),
        &mut accounts,
        TokenInstruction::AmountToUiAmount { amount: 12340 },
    )
    .unwrap();
    assert_eq!(bytes, b"123.4".to_vec());

    let bytes = Processor::process(
        &program_id(),
        &mut accounts,
        TokenInstruction::AmountToUiAmount { amount: 500 },
    )
    .unwrap();
    assert_eq!(bytes, b"5".to_vec());

    let bytes = Processor::process(
        &program_id(),
        &mut accounts,
        TokenInstruction::AmountToUiAmount { amount: 7 },
    )
    .unwrap();
    assert_eq!(bytes, b"0.07".to_vec());
}

#[test]
fn ui_amount_to_amount_round_trip() {
    let mut accounts = vec![initialized_mint_account(key(1), key(9), 0)];
    let bytes = Processor::process(
        &program_id(),
        &mut accounts,
        TokenInstruction::UiAmountToAmount {
            ui_amount: b"123.4".to_vec(),
        },
    )
    .unwrap();
    assert_eq!(bytes, 12340u64.to_le_bytes().to_vec());

    let bytes = Processor::process(
        &program_id(),
        &mut accounts,
        TokenInstruction::UiAmountToAmount {
            ui_amount: b"0.07".to_vec(),
        },
    )
    .unwrap();
    assert_eq!(bytes, 7u64.to_le_bytes().to_vec());

    // too many fractional digits for the mint
    let result = Processor::process(
        &program_id(),
        &mut accounts,
        TokenInstruction::UiAmountToAmount {
            ui_amount: b"1.234".to_vec(),
        },
    );
    assert_eq!(result.unwrap_err(), ProgramError::InvalidArgument);

    // two dots are malformed
    let result = Processor::process(
        &program_id(),
        &mut accounts,
        TokenInstruction::UiAmountToAmount {
            ui_amount: b"1.2.3".to_vec(),
        },
    );
    assert_eq!(result.unwrap_err(), ProgramError::InvalidArgument);
}

#[test]
fn record_codecs_round_trip() {
    let account = Account {
        mint: key(1),
        owner: key(2),
        amount: 77,
        delegate: Some(key(3)),
        state: AccountState::Frozen,
        is_native: Some(11),
        delegated_amount: 5,
        close_authority: None,
    };
    let mut data = Vec::new();
    account.pack_into_slice(&mut data);
    assert_eq!(Account::unpack_unchecked(&data).unwrap(), account);

    let mint = Mint {
        mint_authority: None,
        supply: 123,
        decimals: 9,
        is_initialized: true,
        freeze_authority: Some(key(4)),
    };
    let mut data = Vec::new();
    mint.pack_into_slice(&mut data);
    assert_eq!(Mint::unpack_unchecked(&data).unwrap(), mint);

    let multisig = Multisig {
        m: 2,
        n: 3,
        is_initialized: true,
        signers: [key(9); 11],
    };
    let mut data = Vec::new();
    multisig.pack_into_slice(&mut data);
    assert_eq!(Multisig::unpack_unchecked(&data).unwrap(), multisig);
}
