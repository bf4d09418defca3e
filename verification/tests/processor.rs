//! Tests of the pool operation handler.

use apl_amm::account::AccountInfo;
use apl_amm::amm::error::AmmError;
use apl_amm::amm::instruction::AmmInstruction;
use apl_amm::amm::processor::{Processor, TokenEffect};
use apl_amm::amm::state::Pool;
use apl_amm::program_error::ProgramError;
use apl_amm::pubkey::Pubkey;
use apl_amm::test_utils::{create_program_test_context, TestAccount};

fn key(tag: u8) -> Pubkey {
    Pubkey { bytes: [tag; 32] }
}

fn err_of(e: AmmError) -> ProgramError {
    e.into()
}

#[test]
fn test_initialize_pool() {
    let (program_id, mut accounts) = create_program_test_context();

    // Create accounts
    let pool_account = TestAccount::new_system_account();
    let token_a_mint = TestAccount::new_token_mint(&key(11));
    let token_b_mint = TestAccount::new_token_mint(&key(12));
    let lp_mint = TestAccount::new_token_mint(&key(13));
    let token_a_vault = TestAccount::new_token_account(&token_a_mint.owner, &program_id);
    let token_b_vault = TestAccount::new_token_account(&token_b_mint.owner, &program_id);
    let mut authority = TestAccount::new_system_account();
    authority.is_signer = true;

    accounts.push(pool_account.to_account_info());
    accounts.push(token_a_mint.to_account_info());
    accounts.push(token_b_mint.to_account_info());
    accounts.push(lp_mint.to_account_info());
    accounts.push(token_a_vault.to_account_info());
    accounts.push(token_b_vault.to_account_info());
    accounts.push(authority.to_account_info());

    // Test successful initialization
    let instruction = AmmInstruction::InitializePool {
        fee_numerator: 25,
        fee_denominator: 10000,
    };
    let result = Processor::process(&program_id, &mut accounts, &instruction.pack());
    assert!(result.is_ok());

    // Verify pool state
    let pool = Pool::unpack_from_slice(&accounts[0].data).unwrap();
    assert!(pool.is_initialized);
    assert_eq!(pool.token_a, token_a_mint.owner);
    assert_eq!(pool.token_b, token_b_mint.owner);
    assert_eq!(pool.lp_mint, lp_mint.owner);
    assert_eq!(pool.token_a_vault, token_a_vault.owner);
    assert_eq!(pool.token_b_vault, token_b_vault.owner);
    assert_eq!(pool.fee_numerator, 25);
    assert_eq!(pool.fee_denominator, 10000);

    // Test invalid fee configuration
    let instruction = AmmInstruction::InitializePool {
        fee_numerator: 10000,
        fee_denominator: 1000,
    };
    let result = Processor::process(&program_id, &mut accounts, &instruction.pack());
    assert_eq!(result.unwrap_err(), AmmError::InvalidFeeConfig.into());

    // Test already initialized
    let instruction = AmmInstruction::InitializePool {
        fee_numerator: 25,
        fee_denominator: 10000,
    };
    let result = Processor::process(&program_id, &mut accounts, &instruction.pack());
    assert_eq!(result.unwrap_err(), AmmError::AlreadyInitialized.into());
}

#[test]
fn test_add_liquidity() {
    let (program_id, mut accounts) = create_program_test_context();

    // Create accounts
    let pool_account = TestAccount::new_system_account();
    let token_a_vault = TestAccount::new_token_account(&key(21), &program_id);
    let token_b_vault = TestAccount::new_token_account(&key(22), &program_id);
    let lp_mint = TestAccount::new_token_mint(&program_id);
    let user_token_a = TestAccount::new_token_account(&token_a_vault.owner, &key(31));
    let user_token_b = TestAccount::new_token_account(&token_b_vault.owner, &key(32));
    let user_lp = TestAccount::new_token_account(&lp_mint.owner, &key(33));
    let mut authority = TestAccount::new_system_account();
    authority.is_signer = true;

    accounts.push(pool_account.to_account_info());
    accounts.push(token_a_vault.to_account_info());
    accounts.push(token_b_vault.to_account_info());
    accounts.push(lp_mint.to_account_info());
    accounts.push(user_token_a.to_account_info());
    accounts.push(user_token_b.to_account_info());
    accounts.push(user_lp.to_account_info());
    accounts.push(authority.to_account_info());

    // Initialize pool first
    let pool = Pool {
        token_a: token_a_vault.owner,
        token_b: token_b_vault.owner,
        lp_mint: lp_mint.owner,
        token_a_vault: token_a_vault.owner,
        token_b_vault: token_b_vault.owner,
        fee_numerator: 25,
        fee_denominator: 10000,
        is_initialized: true,
    };
    pool.pack_into_slice(&mut accounts[0].data);

    // Test initial liquidity addition
    let instruction = AmmInstruction::AddLiquidity {
        token_a_amount: 1000,
        token_b_amount: 1000,
        min_lp_amount: 900,
    };
    let result = Processor::process(&program_id, &mut accounts, &instruction.pack());
    assert!(result.is_ok());

    // Test slippage protection
    let instruction = AmmInstruction::AddLiquidity {
        token_a_amount: 1000,
        token_b_amount: 1000,
        min_lp_amount: 2000,
    };
    let result = Processor::process(&program_id, &mut accounts, &instruction.pack());
    assert_eq!(result.unwrap_err(), AmmError::SlippageExceeded.into());
}

#[test]
fn test_remove_liquidity() {
    // a pool whose vaults hold 1000 of each token against 1000 shares
    let (program_id, mut accounts) = liquidity_fixture(1000, 1000, 1000);

    // Test liquidity removal
    let instruction = AmmInstruction::RemoveLiquidity {
        lp_amount: 500,
        min_token_a_amount: 450,
        min_token_b_amount: 450,
    };
    let result = Processor::process(&program_id, &mut accounts, &instruction.pack());
    assert!(result.is_ok());

    // Test slippage protection
    let instruction = AmmInstruction::RemoveLiquidity {
        lp_amount: 500,
        min_token_a_amount: 1000,
        min_token_b_amount: 1000,
    };
    let result = Processor::process(&program_id, &mut accounts, &instruction.pack());
    assert_eq!(result.unwrap_err(), AmmError::SlippageExceeded.into());
}

#[test]
fn test_swap() {
    let (program_id, mut accounts) = create_program_test_context();

    // Create accounts
    let pool_account = TestAccount::new_system_account();
    let input_vault = TestAccount::new_token_account(&key(81), &program_id);
    let output_vault = TestAccount::new_token_account(&key(82), &program_id);
    let user_input = TestAccount::new_token_account(&input_vault.owner, &key(91));
    let user_output = TestAccount::new_token_account(&output_vault.owner, &key(92));
    let mut authority = TestAccount::new_system_account();
    authority.is_signer = true;

    accounts.push(pool_account.to_account_info());
    accounts.push(input_vault.to_account_info());
    accounts.push(output_vault.to_account_info());
    accounts.push(user_input.to_account_info());
    accounts.push(user_output.to_account_info());
    accounts.push(authority.to_account_info());

    // Initialize pool with liquidity
    let pool = Pool {
        token_a: input_vault.owner,
        token_b: output_vault.owner,
        lp_mint: key(83),
        token_a_vault: input_vault.owner,
        token_b_vault: output_vault.owner,
        fee_numerator: 25,
        fee_denominator: 10000,
        is_initialized: true,
    };
    pool.pack_into_slice(&mut accounts[0].data);
    accounts[1].data[64..72].copy_from_slice(&10_000u64.to_le_bytes());
    accounts[2].data[64..72].copy_from_slice(&10_000u64.to_le_bytes());

    // Test swap
    let instruction = AmmInstruction::Swap {
        amount_in: 1000,
        min_amount_out: 900,
    };
    let result = Processor::process(&program_id, &mut accounts, &instruction.pack());
    assert!(result.is_ok());

    // Test slippage protection
    let instruction = AmmInstruction::Swap {
        amount_in: 1000,
        min_amount_out: 2000,
    };
    let result = Processor::process(&program_id, &mut accounts, &instruction.pack());
    assert_eq!(result.unwrap_err(), AmmError::SlippageExceeded.into());
}

/// Builds an initialized pool with live reserves and share supply.
/// Returns the program id and the eight accounts of a liquidity operation.
fn liquidity_fixture(
    reserve_a: u64,
    reserve_b: u64,
    lp_supply: u64,
) -> (Pubkey, Vec<AccountInfo>) {
    let (program_id, mut accounts) = create_program_test_context();

    let pool_account = TestAccount::new_system_account();
    let token_a_vault = TestAccount::new_token_account(&key(41), &key(101));
    let token_b_vault = TestAccount::new_token_account(&key(42), &key(102));
    let lp_mint = TestAccount::new_token_mint(&key(103));
    let user_token_a = TestAccount::new_token_account(&key(41), &key(51));
    let user_token_b = TestAccount::new_token_account(&key(42), &key(52));
    let user_lp = TestAccount::new_token_account(&key(103), &key(53));
    let mut authority = TestAccount::new_system_account();
    authority.is_signer = true;

    accounts.push(pool_account.to_account_info());
    accounts.push(token_a_vault.to_account_info());
    accounts.push(token_b_vault.to_account_info());
    accounts.push(lp_mint.to_account_info());
    accounts.push(user_token_a.to_account_info());
    accounts.push(user_token_b.to_account_info());
    accounts.push(user_lp.to_account_info());
    accounts.push(authority.to_account_info());

    let pool = Pool {
        token_a: key(41),
        token_b: key(42),
        lp_mint: lp_mint.owner,
        token_a_vault: token_a_vault.owner,
        token_b_vault: token_b_vault.owner,
        fee_numerator: 25,
        fee_denominator: 10000,
        is_initialized: true,
    };
    pool.pack_into_slice(&mut accounts[0].data);

    // write live balances into the vaults and the supply into the mint
    accounts[1].data[64..72].copy_from_slice(&reserve_a.to_le_bytes());
    accounts[2].data[64..72].copy_from_slice(&reserve_b.to_le_bytes());
    accounts[3].data[36..44].copy_from_slice(&lp_supply.to_le_bytes());

    (program_id, accounts)
}

#[test]
fn add_liquidity_proportional_path_and_effects() {
    let (program_id, mut accounts) = liquidity_fixture(1000, 1000, 1000);
    let instruction = AmmInstruction::AddLiquidity {
        token_a_amount: 100,
        token_b_amount: 100,
        min_lp_amount: 100,
    };
    let effects = Processor::process(&program_id, &mut accounts, &instruction.pack()).unwrap();
    assert_eq!(effects.len(), 3);
    match &effects[2] {
        TokenEffect::MintTo { amount, .. } => assert_eq!(*amount, 100),
        other => panic!("expected a mint effect, got {:?}", other),
    }
}

#[test]
fn remove_liquidity_pays_proportional_shares() {
    let (program_id, mut accounts) = liquidity_fixture(1000, 3000, 1000);
    let instruction = AmmInstruction::RemoveLiquidity {
        lp_amount: 250,
        min_token_a_amount: 250,
        min_token_b_amount: 750,
    };
    let effects = Processor::process(&program_id, &mut accounts, &instruction.pack()).unwrap();
    assert_eq!(effects.len(), 3);
    match &effects[0] {
        TokenEffect::Burn { amount, .. } => assert_eq!(*amount, 250),
        other => panic!("expected a burn effect, got {:?}", other),
    }
    match &effects[1] {
        TokenEffect::Transfer { amount, .. } => assert_eq!(*amount, 250),
        other => panic!("expected a transfer effect, got {:?}", other),
    }
    match &effects[2] {
        TokenEffect::Transfer { amount, .. } => assert_eq!(*amount, 750),
        other => panic!("expected a transfer effect, got {:?}", other),
    }
}

#[test]
fn remove_liquidity_slippage_leaves_accounts_unchanged() {
    let (program_id, mut accounts) = liquidity_fixture(1000, 1000, 1000);
    let before: Vec<Vec<u8>> = accounts.iter().map(|a| a.data.clone()).collect();
    let instruction = AmmInstruction::RemoveLiquidity {
        lp_amount: 100,
        min_token_a_amount: 101,
        min_token_b_amount: 0,
    };
    let result = Processor::process(&program_id, &mut accounts, &instruction.pack());
    assert_eq!(result.unwrap_err(), err_of(AmmError::SlippageExceeded));
    let after: Vec<Vec<u8>> = accounts.iter().map(|a| a.data.clone()).collect();
    assert_eq!(before, after);
}

#[test]
fn remove_liquidity_narrowing_overflow_fails() {
    // burning more shares than exist would overflow the 64-bit payout
    let (program_id, mut accounts) = liquidity_fixture(u64::MAX, u64::MAX, 1);
    let instruction = AmmInstruction::RemoveLiquidity {
        lp_amount: u64::MAX,
        min_token_a_amount: 0,
        min_token_b_amount: 0,
    };
    let result = Processor::process(&program_id, &mut accounts, &instruction.pack());
    assert_eq!(result.unwrap_err(), err_of(AmmError::MathOverflow));
}

#[test]
fn swap_happy_path_and_slippage() {
    let (program_id, mut accounts) = create_program_test_context();

    let pool_account = TestAccount::new_system_account();
    let input_vault = TestAccount::new_token_account(&key(61), &key(111));
    let output_vault = TestAccount::new_token_account(&key(62), &key(112));
    let user_input = TestAccount::new_token_account(&key(61), &key(71));
    let user_output = TestAccount::new_token_account(&key(62), &key(72));
    let mut authority = TestAccount::new_system_account();
    authority.is_signer = true;

    accounts.push(pool_account.to_account_info());
    accounts.push(input_vault.to_account_info());
    accounts.push(output_vault.to_account_info());
    accounts.push(user_input.to_account_info());
    accounts.push(user_output.to_account_info());
    accounts.push(authority.to_account_info());

    let pool = Pool {
        token_a: key(61),
        token_b: key(62),
        lp_mint: key(63),
        token_a_vault: input_vault.owner,
        token_b_vault: output_vault.owner,
        fee_numerator: 25,
        fee_denominator: 10000,
        is_initialized: true,
    };
    pool.pack_into_slice(&mut accounts[0].data);
    accounts[1].data[64..72].copy_from_slice(&1000u64.to_le_bytes());
    accounts[2].data[64..72].copy_from_slice(&1000u64.to_le_bytes());

    let instruction = AmmInstruction::Swap {
        amount_in: 100,
        min_amount_out: 90,
    };
    let effects = Processor::process(&program_id, &mut accounts, &instruction.pack()).unwrap();
    assert_eq!(effects.len(), 2);
    match &effects[1] {
        TokenEffect::Transfer { amount, .. } => assert_eq!(*amount, 90),
        other => panic!("expected a transfer effect, got {:?}", other),
    }

    let instruction = AmmInstruction::Swap {
        amount_in: 100,
        min_amount_out: 2000,
    };
    let result = Processor::process(&program_id, &mut accounts, &instruction.pack());
    assert_eq!(result.unwrap_err(), err_of(AmmError::SlippageExceeded));
}

#[test]
fn operations_on_uninitialized_pool_fail() {
    // the pool record stays all-zero: uninitialized
    let (program_id, mut accounts) = liquidity_fixture(1000, 1000, 1000);
    let mut fresh = TestAccount::new_system_account().to_account_info();
    std::mem::swap(&mut accounts[0], &mut fresh);

    for instruction in [
        AmmInstruction::AddLiquidity {
            token_a_amount: 1,
            token_b_amount: 1,
            min_lp_amount: 0,
        },
        AmmInstruction::RemoveLiquidity {
            lp_amount: 1,
            min_token_a_amount: 0,
            min_token_b_amount: 0,
        },
        AmmInstruction::Swap {
            amount_in: 1,
            min_amount_out: 0,
        },
    ] {
        let result = Processor::process(&program_id, &mut accounts, &instruction.pack());
        assert_eq!(result.unwrap_err(), err_of(AmmError::InvalidPoolState));
    }
}

#[test]
fn vault_binding_mismatch_fails() {
    let (program_id, mut accounts) = liquidity_fixture(1000, 1000, 1000);
    // hand in a foreign account where vault A belongs
    let mut impostor = TestAccount::new_token_account(&key(41), &key(99)).to_account_info();
    impostor.key = key(99);
    accounts[1] = impostor;
    let instruction = AmmInstruction::AddLiquidity {
        token_a_amount: 100,
        token_b_amount: 100,
        min_lp_amount: 0,
    };
    let result = Processor::process(&program_id, &mut accounts, &instruction.pack());
    assert_eq!(result.unwrap_err(), err_of(AmmError::InvalidPoolState));
}

#[test]
fn check_account_owner_matches_owner() {
    let account = TestAccount::new_token_account(&key(1), &key(2)).to_account_info();
    let owner = account.owner;
    assert!(Processor::check_account_owner(&account, &owner).is_ok());
    assert_eq!(
        Processor::check_account_owner(&account, &key(123)),
        Err(ProgramError::IncorrectProgramId)
    );
}
