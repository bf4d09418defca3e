//! The pool operation handler.
//!
//! Each operation is a one-shot validate-compute-apply sequence: all
//! validation and arithmetic completes before any account is mutated or
//! any external balance movement is requested, so a failing operation
//! leaves every account untouched and requests nothing.  Balance-moving
//! work itself is external: a successful operation returns the list of
//! transfer, mint, and burn effects the caller must apply as one atomic
//! unit.

use vstd::prelude::*;

use crate::account::{
    accounts_view, set_account_data, spec_account_amount, spec_mint_supply, token_account_amount,
    mint_supply, AccountInfo, AccountV,
};
use crate::amm::error::AmmError;
use crate::amm::instruction::{spec_unpack_instruction, AmmInstruction};
use crate::amm::math::{
    calculate_initial_lp_amount, calculate_lp_amount, calculate_swap_output, math_overflow,
    spec_initial_lp_amount, spec_proportional_lp_amount, spec_swap_output,
};
use crate::amm::state::{spec_pack_pool, spec_unpack_pool, Pool, PoolV};
use crate::program_error::ProgramError;
use crate::pubkey::Pubkey;

verus! {

/// An external balance movement requested by a successful operation.
#[derive(Clone, Copy, Debug)]
pub enum TokenEffect {
    /// Move `amount` of a token from `source` to `destination` under
    /// `authority`.
    Transfer { source: Pubkey, destination: Pubkey, authority: Pubkey, amount: u64 },
    /// Mint `amount` new units of `mint` to `destination` under `authority`.
    MintTo { mint: Pubkey, destination: Pubkey, authority: Pubkey, amount: u64 },
    /// Burn `amount` units of `mint` held by `account` under `authority`.
    Burn { account: Pubkey, mint: Pubkey, authority: Pubkey, amount: u64 },
}

/// The mathematical image of a requested balance movement.
pub ghost enum TokenEffectV {
    Transfer { source: Seq<u8>, destination: Seq<u8>, authority: Seq<u8>, amount: u64 },
    MintTo { mint: Seq<u8>, destination: Seq<u8>, authority: Seq<u8>, amount: u64 },
    Burn { account: Seq<u8>, mint: Seq<u8>, authority: Seq<u8>, amount: u64 },
}

impl View for TokenEffect {
    type V = TokenEffectV;

    open spec fn view(&self) -> TokenEffectV {
        match *self {
            TokenEffect::Transfer { source, destination, authority, amount } => (TokenEffectV::Transfer {
                source: source@,
                destination: destination@,
                authority: authority@,
                amount,
            }),
            TokenEffect::MintTo { mint, destination, authority, amount } => (TokenEffectV::MintTo {
                mint: mint@,
                destination: destination@,
                authority: authority@,
                amount,
            }),
            TokenEffect::Burn { account, mint, authority, amount } => (TokenEffectV::Burn {
                account: account@,
                mint: mint@,
                authority: authority@,
                amount,
            }),
        }
    }
}

/// The images of a whole effect list.
pub open spec fn effects_view(s: Seq<TokenEffect>) -> Seq<TokenEffectV> {
    s.map_values(|e: TokenEffect| e@)
}

/// Shorthand for the pool program's own errors as `ProgramError`s.
pub open spec fn amm_err(e: AmmError) -> ProgramError {
    e.spec_program_error()
}

/// The pool-record transition performed by `InitializePool`.
///
/// Fee configurations with a zero term or a fee of 100% or more are
/// rejected for every pool state; an already-initialized pool rejects any
/// further initialization.
pub open spec fn spec_initialize_pool(
    pool: PoolV,
    token_a: Seq<u8>,
    token_b: Seq<u8>,
    lp_mint: Seq<u8>,
    token_a_vault: Seq<u8>,
    token_b_vault: Seq<u8>,
    fee_numerator: u16,
    fee_denominator: u16,
) -> Result<PoolV, ProgramError> {
    if fee_numerator == 0 || fee_denominator == 0 || fee_numerator >= fee_denominator {
        Err(amm_err(AmmError::InvalidFeeConfig))
    } else if pool.is_initialized {
        Err(amm_err(AmmError::AlreadyInitialized))
    } else {
        Ok(
            PoolV {
                token_a,
                token_b,
                lp_mint,
                token_a_vault,
                token_b_vault,
                fee_numerator,
                fee_denominator,
                is_initialized: true,
            },
        )
    }
}

/// The share amount minted by `AddLiquidity` against the given reserves,
/// or the error that rejects it.
pub open spec fn spec_add_liquidity(
    pool: PoolV,
    token_a_reserve: u64,
    token_b_reserve: u64,
    lp_supply: u64,
    token_a_amount: u64,
    token_b_amount: u64,
    min_lp_amount: u64,
) -> Result<u64, ProgramError> {
    if !pool.is_initialized {
        Err(amm_err(AmmError::InvalidPoolState))
    } else {
        let computed = if lp_supply == 0 {
            spec_initial_lp_amount(token_a_amount, token_b_amount)
        } else {
            spec_proportional_lp_amount(
                token_a_amount,
                token_b_amount,
                token_a_reserve,
                token_b_reserve,
                lp_supply,
            )
        };
        match computed {
            Err(e) => Err(e),
            Ok(lp_amount) => if lp_amount < min_lp_amount {
                Err(amm_err(AmmError::SlippageExceeded))
            } else {
                Ok(lp_amount)
            },
        }
    }
}

/// The token amounts paid out by `RemoveLiquidity`: each reserve's
/// proportional share `reserve * lp_amount / lp_supply`, or the error that
/// rejects the withdrawal.
pub open spec fn spec_remove_liquidity(
    pool: PoolV,
    token_a_reserve: u64,
    token_b_reserve: u64,
    lp_supply: u64,
    lp_amount: u64,
    min_token_a_amount: u64,
    min_token_b_amount: u64,
) -> Result<(u64, u64), ProgramError> {
    if !pool.is_initialized {
        Err(amm_err(AmmError::InvalidPoolState))
    } else if lp_supply == 0 {
        Err(math_overflow())
    } else {
        let token_a_amount = (token_a_reserve * lp_amount) / (lp_supply as int);
        let token_b_amount = (token_b_reserve * lp_amount) / (lp_supply as int);
        if token_a_amount > u64::MAX || token_b_amount > u64::MAX {
            Err(math_overflow())
        } else if token_a_amount < min_token_a_amount || token_b_amount < min_token_b_amount {
            Err(amm_err(AmmError::SlippageExceeded))
        } else {
            Ok((token_a_amount as u64, token_b_amount as u64))
        }
    }
}

/// The output amount paid by `Swap` against the given reserves under the
/// pool's fee schedule, or the error that rejects the trade.
pub open spec fn spec_swap(
    pool: PoolV,
    reserve_in: u64,
    reserve_out: u64,
    amount_in: u64,
    min_amount_out: u64,
) -> Result<u64, ProgramError> {
    if !pool.is_initialized {
        Err(amm_err(AmmError::InvalidPoolState))
    } else {
        match spec_swap_output(
            amount_in,
            reserve_in,
            reserve_out,
            pool.fee_numerator,
            pool.fee_denominator,
        ) {
            Err(e) => Err(e),
            Ok(amount_out) => if amount_out < min_amount_out {
                Err(amm_err(AmmError::SlippageExceeded))
            } else {
                Ok(amount_out)
            },
        }
    }
}

/// `InitializePool` at the account level: decodes the stored pool record,
/// applies the record transition, and writes the new record back into the
/// pool account.
pub open spec fn spec_process_initialize_pool(
    accounts: Seq<AccountV>,
    fee_numerator: u16,
    fee_denominator: u16,
) -> Result<Seq<AccountV>, ProgramError> {
    if accounts.len() < 7 {
        Err(ProgramError::NotEnoughAccountKeys)
    } else {
        match spec_unpack_pool(accounts[0].data) {
            Err(e) => Err(e),
            Ok(pool) => match spec_initialize_pool(
                pool,
                accounts[1].key,
                accounts[2].key,
                accounts[3].key,
                accounts[4].key,
                accounts[5].key,
                fee_numerator,
                fee_denominator,
            ) {
                Err(e) => Err(e),
                Ok(new_pool) => Ok(
                    accounts.update(0, (AccountV { data: spec_pack_pool(new_pool), ..accounts[0] })),
                ),
            },
        }
    }
}

/// Whether the three pool-side accounts of a liquidity operation are the
/// very accounts recorded on the pool: vault A, vault B, and the share
/// mint.
pub open spec fn spec_liquidity_accounts_bound(pool: PoolV, accounts: Seq<AccountV>) -> bool {
    &&& accounts[1].key == pool.token_a_vault
    &&& accounts[2].key == pool.token_b_vault
    &&& accounts[3].key == pool.lp_mint
}

/// `AddLiquidity` at the account level: validates the pool and its
/// recorded accounts, reads the live reserves and supply, computes the
/// share amount, and requests the two deposits and the mint as effects.
pub open spec fn spec_process_add_liquidity(
    accounts: Seq<AccountV>,
    token_a_amount: u64,
    token_b_amount: u64,
    min_lp_amount: u64,
) -> Result<Seq<TokenEffectV>, ProgramError> {
    if accounts.len() < 8 {
        Err(ProgramError::NotEnoughAccountKeys)
    } else {
        match spec_unpack_pool(accounts[0].data) {
            Err(e) => Err(e),
            Ok(pool) => if !pool.is_initialized {
                Err(amm_err(AmmError::InvalidPoolState))
            } else if !spec_liquidity_accounts_bound(pool, accounts) {
                Err(amm_err(AmmError::InvalidPoolState))
            } else {
                match (
                    spec_account_amount(accounts[1].data),
                    spec_account_amount(accounts[2].data),
                    spec_mint_supply(accounts[3].data),
                ) {
                    (Some(token_a_reserve), Some(token_b_reserve), Some(lp_supply)) => match spec_add_liquidity(
                        pool,
                        token_a_reserve,
                        token_b_reserve,
                        lp_supply,
                        token_a_amount,
                        token_b_amount,
                        min_lp_amount,
                    ) {
                        Err(e) => Err(e),
                        Ok(lp_amount) => Ok(
                            seq![
                                (TokenEffectV::Transfer {
                                    source: accounts[4].key,
                                    destination: accounts[1].key,
                                    authority: accounts[7].key,
                                    amount: token_a_amount,
                                }),
                                (TokenEffectV::Transfer {
                                    source: accounts[5].key,
                                    destination: accounts[2].key,
                                    authority: accounts[7].key,
                                    amount: token_b_amount,
                                }),
                                (TokenEffectV::MintTo {
                                    mint: accounts[3].key,
                                    destination: accounts[6].key,
                                    authority: accounts[0].key,
                                    amount: lp_amount,
                                }),
                            ],
                        ),
                    },
                    _ => Err(amm_err(AmmError::InvalidPoolState)),
                }
            },
        }
    }
}

/// `RemoveLiquidity` at the account level: validates the pool and its
/// recorded accounts, reads the live reserves and supply, computes both
/// payouts, and requests the burn and the two withdrawals as effects.
pub open spec fn spec_process_remove_liquidity(
    accounts: Seq<AccountV>,
    lp_amount: u64,
    min_token_a_amount: u64,
    min_token_b_amount: u64,
) -> Result<Seq<TokenEffectV>, ProgramError> {
    if accounts.len() < 8 {
        Err(ProgramError::NotEnoughAccountKeys)
    } else {
        match spec_unpack_pool(accounts[0].data) {
            Err(e) => Err(e),
            Ok(pool) => if !pool.is_initialized {
                Err(amm_err(AmmError::InvalidPoolState))
            } else if !spec_liquidity_accounts_bound(pool, accounts) {
                Err(amm_err(AmmError::InvalidPoolState))
            } else {
                match (
                    spec_account_amount(accounts[1].data),
                    spec_account_amount(accounts[2].data),
                    spec_mint_supply(accounts[3].data),
                ) {
                    (Some(token_a_reserve), Some(token_b_reserve), Some(lp_supply)) => match spec_remove_liquidity(
                        pool,
                        token_a_reserve,
                        token_b_reserve,
                        lp_supply,
                        lp_amount,
                        min_token_a_amount,
                        min_token_b_amount,
                    ) {
                        Err(e) => Err(e),
                        Ok(amounts) => Ok(
                            seq![
                                (TokenEffectV::Burn {
                                    account: accounts[6].key,
                                    mint: accounts[3].key,
                                    authority: accounts[7].key,
                                    amount: lp_amount,
                                }),
                                (TokenEffectV::Transfer {
                                    source: accounts[1].key,
                                    destination: accounts[4].key,
                                    authority: accounts[0].key,
                                    amount: amounts.0,
                                }),
                                (TokenEffectV::Transfer {
                                    source: accounts[2].key,
                                    destination: accounts[5].key,
                                    authority: accounts[0].key,
                                    amount: amounts.1,
                                }),
                            ],
                        ),
                    },
                    _ => Err(amm_err(AmmError::InvalidPoolState)),
                }
            },
        }
    }
}

/// Whether a swap's input and output vaults are the pool's two recorded
/// vaults, in either direction.
pub open spec fn spec_swap_accounts_bound(pool: PoolV, accounts: Seq<AccountV>) -> bool {
    ||| (accounts[1].key == pool.token_a_vault && accounts[2].key == pool.token_b_vault)
    ||| (accounts[1].key == pool.token_b_vault && accounts[2].key == pool.token_a_vault)
}

/// `Swap` at the account level: validates the pool and the vault pair,
/// reads the live reserves, computes the output, and requests the two
/// transfers as effects.
pub open spec fn spec_process_swap(
    accounts: Seq<AccountV>,
    amount_in: u64,
    min_amount_out: u64,
) -> Result<Seq<TokenEffectV>, ProgramError> {
    if accounts.len() < 6 {
        Err(ProgramError::NotEnoughAccountKeys)
    } else {
        match spec_unpack_pool(accounts[0].data) {
            Err(e) => Err(e),
            Ok(pool) => if !pool.is_initialized {
                Err(amm_err(AmmError::InvalidPoolState))
            } else if !spec_swap_accounts_bound(pool, accounts) {
                Err(amm_err(AmmError::InvalidPoolState))
            } else {
                match (spec_account_amount(accounts[1].data), spec_account_amount(accounts[2].data)) {
                    (Some(reserve_in), Some(reserve_out)) => match spec_swap(
                        pool,
                        reserve_in,
                        reserve_out,
                        amount_in,
                        min_amount_out,
                    ) {
                        Err(e) => Err(e),
                        Ok(amount_out) => Ok(
                            seq![
                                (TokenEffectV::Transfer {
                                    source: accounts[3].key,
                                    destination: accounts[1].key,
                                    authority: accounts[5].key,
                                    amount: amount_in,
                                }),
                                (TokenEffectV::Transfer {
                                    source: accounts[2].key,
                                    destination: accounts[4].key,
                                    authority: accounts[0].key,
                                    amount: amount_out,
                                }),
                            ],
                        ),
                    },
                    _ => Err(amm_err(AmmError::InvalidPoolState)),
                }
            },
        }
    }
}

/// One dispatched operation: the accounts after it and the effects it
/// requests.  Only `InitializePool` changes an account; the other
/// operations leave all accounts as they were and only request effects.
pub open spec fn spec_process(
    accounts: Seq<AccountV>,
    instruction_data: Seq<u8>,
) -> Result<(Seq<AccountV>, Seq<TokenEffectV>), ProgramError> {
    match spec_unpack_instruction(instruction_data) {
        Err(e) => Err(e),
        Ok(instruction) => match instruction {
            AmmInstruction::InitializePool { fee_numerator, fee_denominator } => match spec_process_initialize_pool(
                accounts,
                fee_numerator,
                fee_denominator,
            ) {
                Err(e) => Err(e),
                Ok(new_accounts) => Ok((new_accounts, Seq::empty())),
            },
            AmmInstruction::AddLiquidity { token_a_amount, token_b_amount, min_lp_amount } => match spec_process_add_liquidity(
                accounts,
                token_a_amount,
                token_b_amount,
                min_lp_amount,
            ) {
                Err(e) => Err(e),
                Ok(effects) => Ok((accounts, effects)),
            },
            AmmInstruction::RemoveLiquidity {
                lp_amount,
                min_token_a_amount,
                min_token_b_amount,
            } => match spec_process_remove_liquidity(
                accounts,
                lp_amount,
                min_token_a_amount,
                min_token_b_amount,
            ) {
                Err(e) => Err(e),
                Ok(effects) => Ok((accounts, effects)),
            },
            AmmInstruction::Swap { amount_in, min_amount_out } => match spec_process_swap(
                accounts,
                amount_in,
                min_amount_out,
            ) {
                Err(e) => Err(e),
                Ok(effects) => Ok((accounts, effects)),
            },
        },
    }
}

/// An invalid fee configuration is rejected with `InvalidFeeConfig` on
/// every pool state: whenever the numerator reaches the denominator, or
/// either term is zero.
pub proof fn lemma_initialize_pool_rejects_bad_fee(
    pool: PoolV,
    token_a: Seq<u8>,
    token_b: Seq<u8>,
    lp_mint: Seq<u8>,
    token_a_vault: Seq<u8>,
    token_b_vault: Seq<u8>,
    fee_numerator: u16,
    fee_denominator: u16,
)
    requires
        fee_numerator >= fee_denominator || fee_numerator == 0 || fee_denominator == 0,
    ensures
        spec_initialize_pool(
            pool,
            token_a,
            token_b,
            lp_mint,
            token_a_vault,
            token_b_vault,
            fee_numerator,
            fee_denominator,
        ) == Err::<PoolV, ProgramError>(amm_err(AmmError::InvalidFeeConfig)),
{
}

/// A second initialization of the same pool with a well-formed fee
/// configuration fails with `AlreadyInitialized`.  (With a malformed fee
/// configuration the fee check fires first and reports `InvalidFeeConfig`
/// instead.)
pub proof fn lemma_second_initialize_fails(
    pool: PoolV,
    token_a: Seq<u8>,
    token_b: Seq<u8>,
    lp_mint: Seq<u8>,
    token_a_vault: Seq<u8>,
    token_b_vault: Seq<u8>,
    fee_numerator: u16,
    fee_denominator: u16,
    token_a2: Seq<u8>,
    token_b2: Seq<u8>,
    lp_mint2: Seq<u8>,
    token_a_vault2: Seq<u8>,
    token_b_vault2: Seq<u8>,
    fee_numerator2: u16,
    fee_denominator2: u16,
)
    requires
        spec_initialize_pool(
            pool,
            token_a,
            token_b,
            lp_mint,
            token_a_vault,
            token_b_vault,
            fee_numerator,
            fee_denominator,
        ) is Ok,
        0 < fee_numerator2 < fee_denominator2,
    ensures
        spec_initialize_pool(
            spec_initialize_pool(
                pool,
                token_a,
                token_b,
                lp_mint,
                token_a_vault,
                token_b_vault,
                fee_numerator,
                fee_denominator,
            )->Ok_0,
            token_a2,
            token_b2,
            lp_mint2,
            token_a_vault2,
            token_b_vault2,
            fee_numerator2,
            fee_denominator2,
        ) == Err::<PoolV, ProgramError>(amm_err(AmmError::AlreadyInitialized)),
{
}

/// Every operation other than `InitializePool` rejects an uninitialized
/// pool with `InvalidPoolState`, whatever its other arguments are.
pub proof fn lemma_uninitialized_pool_rejected(
    pool: PoolV,
    token_a_reserve: u64,
    token_b_reserve: u64,
    lp_supply: u64,
    token_a_amount: u64,
    token_b_amount: u64,
    min_lp_amount: u64,
    lp_amount: u64,
    min_token_a_amount: u64,
    min_token_b_amount: u64,
    amount_in: u64,
    min_amount_out: u64,
)
    requires
        !pool.is_initialized,
    ensures
        spec_add_liquidity(
            pool,
            token_a_reserve,
            token_b_reserve,
            lp_supply,
            token_a_amount,
            token_b_amount,
            min_lp_amount,
        ) == Err::<u64, ProgramError>(amm_err(AmmError::InvalidPoolState)),
        spec_remove_liquidity(
            pool,
            token_a_reserve,
            token_b_reserve,
            lp_supply,
            lp_amount,
            min_token_a_amount,
            min_token_b_amount,
        ) == Err::<(u64, u64), ProgramError>(amm_err(AmmError::InvalidPoolState)),
        spec_swap(pool, token_a_reserve, token_b_reserve, amount_in, min_amount_out) == Err::<
            u64,
            ProgramError,
        >(amm_err(AmmError::InvalidPoolState)),
{
}

/// A successful initialization leaves the record initialized, carrying
/// exactly the supplied identifiers and a fee strictly between zero and
/// one.
pub proof fn lemma_initialize_pool_establishes_invariant(
    pool: PoolV,
    token_a: Seq<u8>,
    token_b: Seq<u8>,
    lp_mint: Seq<u8>,
    token_a_vault: Seq<u8>,
    token_b_vault: Seq<u8>,
    fee_numerator: u16,
    fee_denominator: u16,
)
    requires
        spec_initialize_pool(
            pool,
            token_a,
            token_b,
            lp_mint,
            token_a_vault,
            token_b_vault,
            fee_numerator,
            fee_denominator,
        ) is Ok,
    ensures
        ({
            let new_pool = spec_initialize_pool(
                pool,
                token_a,
                token_b,
                lp_mint,
                token_a_vault,
                token_b_vault,
                fee_numerator,
                fee_denominator,
            )->Ok_0;
            &&& new_pool.is_initialized
            &&& 0 < new_pool.fee_numerator < new_pool.fee_denominator
            &&& new_pool.token_a == token_a
            &&& new_pool.token_b == token_b
            &&& new_pool.lp_mint == lp_mint
            &&& new_pool.token_a_vault == token_a_vault
            &&& new_pool.token_b_vault == token_b_vault
        }),
{
}

/// Once a pool record is initialized it never reverts, and its
/// identifiers and fee schedule never change: no dispatched operation that
/// succeeds alters the stored record in any way.
pub proof fn lemma_initialized_pool_immutable(accounts: Seq<AccountV>, instruction_data: Seq<u8>)
    requires
        accounts.len() > 0,
        spec_unpack_pool(accounts[0].data) is Ok,
        spec_unpack_pool(accounts[0].data)->Ok_0.is_initialized,
        spec_process(accounts, instruction_data) is Ok,
    ensures
        spec_process(accounts, instruction_data)->Ok_0.0[0].data == accounts[0].data,
{
}

/// Whenever a computed share or payout falls short of the caller's stated
/// minimum, the operation fails with `SlippageExceeded`.  Because
/// `spec_process` leaves the account list untouched on every error, no
/// account and no stored pool record changes on such a failure, and no
/// effect is requested.
pub proof fn lemma_slippage_rejected(
    pool: PoolV,
    token_a_reserve: u64,
    token_b_reserve: u64,
    lp_supply: u64,
    token_a_amount: u64,
    token_b_amount: u64,
    min_lp_amount: u64,
    lp_amount: u64,
    min_token_a_amount: u64,
    min_token_b_amount: u64,
    amount_in: u64,
    min_amount_out: u64,
)
    requires
        pool.is_initialized,
    ensures
        ({
            let computed = if lp_supply == 0 {
                spec_initial_lp_amount(token_a_amount, token_b_amount)
            } else {
                spec_proportional_lp_amount(
                    token_a_amount,
                    token_b_amount,
                    token_a_reserve,
                    token_b_reserve,
                    lp_supply,
                )
            };
            computed is Ok && computed->Ok_0 < min_lp_amount ==> spec_add_liquidity(
                pool,
                token_a_reserve,
                token_b_reserve,
                lp_supply,
                token_a_amount,
                token_b_amount,
                min_lp_amount,
            ) == Err::<u64, ProgramError>(amm_err(AmmError::SlippageExceeded))
        }),
        ({
            let out = spec_swap_output(
                amount_in,
                token_a_reserve,
                token_b_reserve,
                pool.fee_numerator,
                pool.fee_denominator,
            );
            out is Ok && out->Ok_0 < min_amount_out ==> spec_swap(
                pool,
                token_a_reserve,
                token_b_reserve,
                amount_in,
                min_amount_out,
            ) == Err::<u64, ProgramError>(amm_err(AmmError::SlippageExceeded))
        }),
        lp_supply > 0 && ((token_a_reserve * lp_amount) / (lp_supply as int) < min_token_a_amount
            || (token_b_reserve * lp_amount) / (lp_supply as int) < min_token_b_amount)
            && (token_a_reserve * lp_amount) / (lp_supply as int) <= u64::MAX
            && (token_b_reserve * lp_amount) / (lp_supply as int) <= u64::MAX
            ==> spec_remove_liquidity(
            pool,
            token_a_reserve,
            token_b_reserve,
            lp_supply,
            lp_amount,
            min_token_a_amount,
            min_token_b_amount,
        ) == Err::<(u64, u64), ProgramError>(amm_err(AmmError::SlippageExceeded)),
{
}

/// Program state handler.
pub struct Processor {}

impl Processor {
    /// Processes an `InitializePool` instruction.
    pub fn process_initialize_pool(
        accounts: &mut Vec<AccountInfo>,
        fee_numerator: u16,
        fee_denominator: u16,
    ) -> (r: Result<(), ProgramError>)
        ensures
            match spec_process_initialize_pool(
                accounts_view(old(accounts)@),
                fee_numerator,
                fee_denominator,
            ) {
                Ok(s) => r is Ok && accounts_view(final(accounts)@) == s,
                Err(e) => r == Err::<(), ProgramError>(e) && final(accounts)@ == old(accounts)@,
            },
    {
        if accounts.len() < 7 {
            return Err(ProgramError::NotEnoughAccountKeys);
        }

        // Validate the stored pool record.
        let pool_account = &accounts[0];
        let mut pool = match Pool::unpack_from_slice(pool_account.data.as_slice()) {
            Ok(p) => p,
            Err(e) => {
                return Err(e);
            },
        };

        // Validate the fee configuration.
        if fee_numerator == 0 || fee_denominator == 0 || fee_numerator >= fee_denominator {
            return Err(AmmError::InvalidFeeConfig.to_program_error());
        }
        if pool.is_initialized {
            return Err(AmmError::AlreadyInitialized.to_program_error());
        }

        // Initialize the pool record.
        pool.token_a = accounts[1].key;
        pool.token_b = accounts[2].key;
        pool.lp_mint = accounts[3].key;
        pool.token_a_vault = accounts[4].key;
        pool.token_b_vault = accounts[5].key;
        pool.fee_numerator = fee_numerator;
        pool.fee_denominator = fee_denominator;
        pool.is_initialized = true;

        let mut packed: Vec<u8> = Vec::new();
        pool.pack_into_slice(&mut packed);
        set_account_data(accounts, 0, packed);

        Ok(())
    }

    /// Processes an `AddLiquidity` instruction.
    pub fn process_add_liquidity(
        accounts: &Vec<AccountInfo>,
        token_a_amount: u64,
        token_b_amount: u64,
        min_lp_amount: u64,
    ) -> (r: Result<Vec<TokenEffect>, ProgramError>)
        ensures
            match spec_process_add_liquidity(
                accounts_view(accounts@),
                token_a_amount,
                token_b_amount,
                min_lp_amount,
            ) {
                Ok(effects) => r is Ok && effects_view(r->Ok_0@) == effects,
                Err(e) => r == Err::<Vec<TokenEffect>, ProgramError>(e),
            },
    {
        if accounts.len() < 8 {
            return Err(ProgramError::NotEnoughAccountKeys);
        }

        // Validate the pool state.
        let pool = match Pool::unpack_from_slice(accounts[0].data.as_slice()) {
            Ok(p) => p,
            Err(e) => {
                return Err(e);
            },
        };
        if !pool.is_initialized() {
            return Err(AmmError::InvalidPoolState.to_program_error());
        }

        // The vaults and the share mint must be the accounts recorded on
        // the pool.
        if !(accounts[1].key == pool.token_a_vault && accounts[2].key == pool.token_b_vault
            && accounts[3].key == pool.lp_mint) {
            return Err(AmmError::InvalidPoolState.to_program_error());
        }

        // Read the current vault balances and share supply.
        let token_a_reserve = match token_account_amount(&accounts[1].data) {
            Some(v) => v,
            None => {
                return Err(AmmError::InvalidPoolState.to_program_error());
            },
        };
        let token_b_reserve = match token_account_amount(&accounts[2].data) {
            Some(v) => v,
            None => {
                return Err(AmmError::InvalidPoolState.to_program_error());
            },
        };
        let lp_supply = match mint_supply(&accounts[3].data) {
            Some(v) => v,
            None => {
                return Err(AmmError::InvalidPoolState.to_program_error());
            },
        };

        // Calculate the share amount to mint.
        let lp_amount = if lp_supply == 0 {
            match calculate_initial_lp_amount(token_a_amount, token_b_amount) {
                Ok(v) => v,
                Err(e) => {
                    return Err(e);
                },
            }
        } else {
            match calculate_lp_amount(
                token_a_amount,
                token_b_amount,
                token_a_reserve,
                token_b_reserve,
                lp_supply,
            ) {
                Ok(v) => v,
                Err(e) => {
                    return Err(e);
                },
            }
        };

        if lp_amount < min_lp_amount {
            return Err(AmmError::SlippageExceeded.to_program_error());
        }

        // Request the two deposits and the mint as one atomic effect list.
        let mut effects: Vec<TokenEffect> = Vec::new();
        effects.push(
            TokenEffect::Transfer {
                source: accounts[4].key,
                destination: accounts[1].key,
                authority: accounts[7].key,
                amount: token_a_amount,
            },
        );
        effects.push(
            TokenEffect::Transfer {
                source: accounts[5].key,
                destination: accounts[2].key,
                authority: accounts[7].key,
                amount: token_b_amount,
            },
        );
        effects.push(
            TokenEffect::MintTo {
                mint: accounts[3].key,
                destination: accounts[6].key,
                authority: accounts[0].key,
                amount: lp_amount,
            },
        );
        proof {
            assert(effects_view(effects@) =~= spec_process_add_liquidity(
                accounts_view(accounts@),
                token_a_amount,
                token_b_amount,
                min_lp_amount,
            )->Ok_0);
        }
        Ok(effects)
    }

    /// Processes a `RemoveLiquidity` instruction.
    pub fn process_remove_liquidity(
        accounts: &Vec<AccountInfo>,
        lp_amount: u64,
        min_token_a_amount: u64,
        min_token_b_amount: u64,
    ) -> (r: Result<Vec<TokenEffect>, ProgramError>)
        ensures
            match spec_process_remove_liquidity(
                accounts_view(accounts@),
                lp_amount,
                min_token_a_amount,
                min_token_b_amount,
            ) {
                Ok(effects) => r is Ok && effects_view(r->Ok_0@) == effects,
                Err(e) => r == Err::<Vec<TokenEffect>, ProgramError>(e),
            },
    {
        if accounts.len() < 8 {
            return Err(ProgramError::NotEnoughAccountKeys);
        }

        // Validate the pool state.
        let pool = match Pool::unpack_from_slice(accounts[0].data.as_slice()) {
            Ok(p) => p,
            Err(e) => {
                return Err(e);
            },
        };
        if !pool.is_initialized() {
            return Err(AmmError::InvalidPoolState.to_program_error());
        }
        if !(accounts[1].key == pool.token_a_vault && accounts[2].key == pool.token_b_vault
            && accounts[3].key == pool.lp_mint) {
            return Err(AmmError::InvalidPoolState.to_program_error());
        }

        // Read the current vault balances and share supply.
        let token_a_reserve = match token_account_amount(&accounts[1].data) {
            Some(v) => v,
            None => {
                return Err(AmmError::InvalidPoolState.to_program_error());
            },
        };
        let token_b_reserve = match token_account_amount(&accounts[2].data) {
            Some(v) => v,
            None => {
                return Err(AmmError::InvalidPoolState.to_program_error());
            },
        };
        let lp_supply = match mint_supply(&accounts[3].data) {
            Some(v) => v,
            None => {
                return Err(AmmError::InvalidPoolState.to_program_error());
            },
        };

        // Calculate each reserve's proportional payout.
        if lp_supply == 0 {
            return Err(AmmError::MathOverflow.to_program_error());
        }
        proof {
            assert((token_a_reserve as int) * (lp_amount as int) <= (u64::MAX as int) * (u64::MAX as int)
                && (token_b_reserve as int) * (lp_amount as int) <= (u64::MAX as int) * (u64::MAX as int)) by (nonlinear_arith)
                requires
                    0 <= token_a_reserve <= u64::MAX,
                    0 <= token_b_reserve <= u64::MAX,
                    0 <= lp_amount <= u64::MAX,
            ;
        }
        let token_a_wide = (token_a_reserve as u128) * (lp_amount as u128) / (lp_supply as u128);
        let token_b_wide = (token_b_reserve as u128) * (lp_amount as u128) / (lp_supply as u128);
        if token_a_wide > u64::MAX as u128 || token_b_wide > u64::MAX as u128 {
            return Err(AmmError::MathOverflow.to_program_error());
        }
        let token_a_amount = token_a_wide as u64;
        let token_b_amount = token_b_wide as u64;

        if token_a_amount < min_token_a_amount || token_b_amount < min_token_b_amount {
            return Err(AmmError::SlippageExceeded.to_program_error());
        }

        // Request the burn and the two withdrawals as one atomic effect
        // list.
        let mut effects: Vec<TokenEffect> = Vec::new();
        effects.push(
            TokenEffect::Burn {
                account: accounts[6].key,
                mint: accounts[3].key,
                authority: accounts[7].key,
                amount: lp_amount,
            },
        );
        effects.push(
            TokenEffect::Transfer {
                source: accounts[1].key,
                destination: accounts[4].key,
                authority: accounts[0].key,
                amount: token_a_amount,
            },
        );
        effects.push(
            TokenEffect::Transfer {
                source: accounts[2].key,
                destination: accounts[5].key,
                authority: accounts[0].key,
                amount: token_b_amount,
            },
        );
        proof {
            assert(effects_view(effects@) =~= spec_process_remove_liquidity(
                accounts_view(accounts@),
                lp_amount,
                min_token_a_amount,
                min_token_b_amount,
            )->Ok_0);
        }
        Ok(effects)
    }

    /// Processes a `Swap` instruction.
    pub fn process_swap(
        accounts: &Vec<AccountInfo>,
        amount_in: u64,
        min_amount_out: u64,
    ) -> (r: Result<Vec<TokenEffect>, ProgramError>)
        ensures
            match spec_process_swap(accounts_view(accounts@), amount_in, min_amount_out) {
                Ok(effects) => r is Ok && effects_view(r->Ok_0@) == effects,
                Err(e) => r == Err::<Vec<TokenEffect>, ProgramError>(e),
            },
    {
        if accounts.len() < 6 {
            return Err(ProgramError::NotEnoughAccountKeys);
        }

        // Validate the pool state.
        let pool = match Pool::unpack_from_slice(accounts[0].data.as_slice()) {
            Ok(p) => p,
            Err(e) => {
                return Err(e);
            },
        };
        if !pool.is_initialized() {
            return Err(AmmError::InvalidPoolState.to_program_error());
        }

        // The vault pair must be the pool's two recorded vaults, in either
        // direction.
        let forward = accounts[1].key == pool.token_a_vault && accounts[2].key
            == pool.token_b_vault;
        let backward = accounts[1].key == pool.token_b_vault && accounts[2].key
            == pool.token_a_vault;
        if !(forward || backward) {
            return Err(AmmError::InvalidPoolState.to_program_error());
        }

        // Read the current vault balances.
        let reserve_in = match token_account_amount(&accounts[1].data) {
            Some(v) => v,
            None => {
                return Err(AmmError::InvalidPoolState.to_program_error());
            },
        };
        let reserve_out = match token_account_amount(&accounts[2].data) {
            Some(v) => v,
            None => {
                return Err(AmmError::InvalidPoolState.to_program_error());
            },
        };

        // Calculate the output amount.
        let amount_out = match calculate_swap_output(
            amount_in,
            reserve_in,
            reserve_out,
            pool.fee_numerator,
            pool.fee_denominator,
        ) {
            Ok(v) => v,
            Err(e) => {
                return Err(e);
            },
        };

        if amount_out < min_amount_out {
            return Err(AmmError::SlippageExceeded.to_program_error());
        }

        // Request the deposit and the payout as one atomic effect list.
        let mut effects: Vec<TokenEffect> = Vec::new();
        effects.push(
            TokenEffect::Transfer {
                source: accounts[3].key,
                destination: accounts[1].key,
                authority: accounts[5].key,
                amount: amount_in,
            },
        );
        effects.push(
            TokenEffect::Transfer {
                source: accounts[2].key,
                destination: accounts[4].key,
                authority: accounts[0].key,
                amount: amount_out,
            },
        );
        proof {
            assert(effects_view(effects@) =~= spec_process_swap(
                accounts_view(accounts@),
                amount_in,
                min_amount_out,
            )->Ok_0);
        }
        Ok(effects)
    }

    /// Processes one instruction buffer against the accounts: decodes it,
    /// dispatches the operation, and returns the requested effects.  On any
    /// error no account has changed and no effect is requested.
    pub fn process(
        program_id: &Pubkey,
        accounts: &mut Vec<AccountInfo>,
        instruction_data: &[u8],
    ) -> (r: Result<Vec<TokenEffect>, ProgramError>)
        ensures
            match spec_process(accounts_view(old(accounts)@), instruction_data@) {
                Ok(outcome) => r is Ok && accounts_view(final(accounts)@) == outcome.0
                    && effects_view(r->Ok_0@) == outcome.1,
                Err(e) => r == Err::<Vec<TokenEffect>, ProgramError>(e) && final(accounts)@ == old(
                    accounts,
                )@,
            },
    {
        let instruction = match AmmInstruction::unpack(instruction_data) {
            Ok(i) => i,
            Err(e) => {
                return Err(e);
            },
        };

        match instruction {
            AmmInstruction::InitializePool { fee_numerator, fee_denominator } => {
                match Self::process_initialize_pool(accounts, fee_numerator, fee_denominator) {
                    Ok(u) => Ok(Vec::new()),
                    Err(e) => Err(e),
                }
            },
            AmmInstruction::AddLiquidity { token_a_amount, token_b_amount, min_lp_amount } => {
                Self::process_add_liquidity(
                    accounts,
                    token_a_amount,
                    token_b_amount,
                    min_lp_amount,
                )
            },
            AmmInstruction::RemoveLiquidity {
                lp_amount,
                min_token_a_amount,
                min_token_b_amount,
            } => {
                Self::process_remove_liquidity(
                    accounts,
                    lp_amount,
                    min_token_a_amount,
                    min_token_b_amount,
                )
            },
            AmmInstruction::Swap { amount_in, min_amount_out } => {
                Self::process_swap(accounts, amount_in, min_amount_out)
            },
        }
    }

    /// Checks that the account is owned by the expected program.
    pub fn check_account_owner(account_info: &AccountInfo, program_id: &Pubkey) -> (r: Result<
        (),
        ProgramError,
    >)
        ensures
            r == if account_info@.owner == program_id@ {
                Ok::<(), ProgramError>(())
            } else {
                Err::<(), ProgramError>(ProgramError::IncorrectProgramId)
            },
    {
        if account_info.owner != *program_id {
            Err(ProgramError::IncorrectProgramId)
        } else {
            Ok(())
        }
    }
}

} // verus!
