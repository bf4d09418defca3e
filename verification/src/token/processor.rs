//! The token ledger's state processor.
//!
//! Every handler decodes the records it touches, validates them, and only
//! then writes updated records back, so a failing instruction leaves all
//! accounts untouched.  Each handler's contract ties it to a functional
//! model of the same transition over account images.

use vstd::prelude::*;

use crate::account::{accounts_view, set_account_data, AccountInfo, AccountV};
use crate::program_error::ProgramError;
use crate::pubkey::Pubkey;
use crate::token::error::TokenError;
use crate::token::instruction::{is_valid_signer_index, AuthorityType, TokenInstruction};
use crate::token::state::{
    spec_key_opt, spec_pack_mint, spec_pack_multisig, spec_pack_token_account,
    spec_unpack_mint, spec_unpack_mint_checked, spec_unpack_multisig, spec_unpack_multisig_checked,
    spec_unpack_token_account, spec_unpack_token_account_checked, Account, AccountState, Mint,
    Multisig, ACCOUNT_LEN, MINT_LEN, MULTISIG_LEN,
};

verus! {

/// Shorthand for the token ledger's own errors as `ProgramError`s.
pub open spec fn tok_err(e: TokenError) -> ProgramError {
    e.spec_program_error()
}

/// One signer tried against the positions of a multisignature record:
/// every unmatched position holding the signer's key is marked, and an
/// unsigned match fails the whole validation.
pub open spec fn spec_sign_positions(
    signer: AccountV,
    keys: Seq<Seq<u8>>,
    matched: Seq<bool>,
    num_signers: int,
    p: int,
) -> Result<(Seq<bool>, int), ProgramError>
    decreases keys.len() - p,
{
    if p < 0 || p >= keys.len() || matched.len() != keys.len() {
        Ok((matched, num_signers))
    } else if keys[p] == signer.key && !matched[p] {
        if !signer.is_signer {
            Err(ProgramError::MissingRequiredSignature)
        } else {
            spec_sign_positions(signer, keys, matched.update(p, true), num_signers + 1, p + 1)
        }
    } else {
        spec_sign_positions(signer, keys, matched, num_signers, p + 1)
    }
}

/// All signers tried in order against the multisignature positions.
pub open spec fn spec_sign_fold(
    signers: Seq<AccountV>,
    keys: Seq<Seq<u8>>,
    matched: Seq<bool>,
    num_signers: int,
    i: int,
) -> Result<(Seq<bool>, int), ProgramError>
    decreases signers.len() - i,
{
    if i < 0 || i >= signers.len() {
        Ok((matched, num_signers))
    } else {
        match spec_sign_positions(signers[i], keys, matched, num_signers, 0) {
            Err(e) => Err(e),
            Ok(st) => spec_sign_fold(signers, keys, st.0, st.1, i + 1),
        }
    }
}

/// Owner validation: the owner account must carry the expected key, and
/// must either have signed, or be an initialized multisignature record of
/// this program with enough of its signer keys signing.
pub open spec fn spec_validate_owner(
    program_id: Seq<u8>,
    expected_owner: Seq<u8>,
    owner_account: AccountV,
    signers: Seq<AccountV>,
) -> Result<(), ProgramError> {
    if expected_owner != owner_account.key {
        Err(tok_err(TokenError::OwnerMismatch))
    } else if program_id == owner_account.owner && owner_account.data.len() == 355 {
        match spec_unpack_multisig_checked(owner_account.data) {
            Err(e) => Err(e),
            Ok(multisig) => if multisig.n > 11 {
                // a record claiming more signer keys than it can hold is
                // malformed
                Err(ProgramError::InvalidAccountData)
            } else {
                let keys = multisig.signers.take(multisig.n as int);
                match spec_sign_fold(
                    signers,
                    keys,
                    Seq::new(keys.len(), |i: int| false),
                    0,
                    0,
                ) {
                    Err(e) => Err(e),
                    Ok(st) => if st.1 < multisig.m {
                        Err(ProgramError::MissingRequiredSignature)
                    } else {
                        Ok(())
                    },
                }
            },
        }
    } else if !owner_account.is_signer {
        Err(ProgramError::MissingRequiredSignature)
    } else {
        Ok(())
    }
}

/// `InitializeMint`: the mint record must be fresh; its authority,
/// precision, and freeze authority are recorded and the record is marked
/// initialized.
pub open spec fn spec_initialize_mint(
    accounts: Seq<AccountV>,
    decimals: u8,
    mint_authority: Seq<u8>,
    freeze_authority: Option<Seq<u8>>,
) -> Result<Seq<AccountV>, ProgramError> {
    if accounts.len() < 1 {
        Err(ProgramError::NotEnoughAccountKeys)
    } else {
        match spec_unpack_mint(accounts[0].data) {
            Err(e) => Err(e),
            Ok(mint) => if mint.is_initialized {
                Err(tok_err(TokenError::AlreadyInUse))
            } else {
                Ok(
                    accounts.update(
                        0,
                        (AccountV {
                            data: spec_pack_mint(
                                (crate::token::state::MintV {
                                    mint_authority: Some(mint_authority),
                                    supply: mint.supply,
                                    decimals,
                                    is_initialized: true,
                                    freeze_authority,
                                }),
                            ),
                            ..accounts[0]
                        }),
                    ),
                )
            },
        }
    }
}

/// `InitializeAccount`: the holding record must be fresh; its mint and
/// owner are recorded, its delegation cleared, and the record marked
/// initialized.  With no explicit owner the third account's key is used.
pub open spec fn spec_initialize_account(
    accounts: Seq<AccountV>,
    owner: Option<Seq<u8>>,
) -> Result<Seq<AccountV>, ProgramError> {
    let needed: int = if owner is Some {
        2
    } else {
        3
    };
    if accounts.len() < needed {
        Err(ProgramError::NotEnoughAccountKeys)
    } else {
        let owner_key = match owner {
            Some(o) => o,
            None => accounts[2].key,
        };
        match spec_unpack_token_account(accounts[0].data) {
            Err(e) => Err(e),
            Ok(account) => if account.spec_is_initialized() {
                Err(tok_err(TokenError::AlreadyInUse))
            } else {
                Ok(
                    accounts.update(
                        0,
                        (AccountV {
                            data: spec_pack_token_account(
                                (crate::token::state::TokenAccountV {
                                    mint: accounts[1].key,
                                    owner: owner_key,
                                    amount: account.amount,
                                    delegate: None,
                                    state: AccountState::Initialized,
                                    is_native: account.is_native,
                                    delegated_amount: 0,
                                    close_authority: None,
                                }),
                            ),
                            ..accounts[0]
                        }),
                    ),
                )
            },
        }
    }
}

/// `InitializeMultisig`: the record must be fresh; the remaining accounts'
/// keys become its signer set and `m` of them are required.
pub open spec fn spec_initialize_multisig(accounts: Seq<AccountV>, m: u8) -> Result<
    Seq<AccountV>,
    ProgramError,
> {
    if accounts.len() < 1 {
        Err(ProgramError::NotEnoughAccountKeys)
    } else {
        match crate::token::state::spec_unpack_multisig(accounts[0].data) {
            Err(e) => Err(e),
            Ok(multisig) => if multisig.is_initialized {
                Err(tok_err(TokenError::AlreadyInUse))
            } else {
                let signer_infos = accounts.skip(1);
                let n = signer_infos.len() as int;
                if !(1 <= n <= 11) {
                    Err(tok_err(TokenError::InvalidNumberOfProvidedSigners))
                } else if !(1 <= m <= 11) {
                    Err(tok_err(TokenError::InvalidNumberOfRequiredSigners))
                } else {
                    Ok(
                        accounts.update(
                            0,
                            (AccountV {
                                data: spec_pack_multisig(
                                    (crate::token::state::MultisigV {
                                        m,
                                        n: n as u8,
                                        is_initialized: true,
                                        signers: Seq::new(
                                            11,
                                            |i: int|
                                                if i < signer_infos.len() {
                                                    signer_infos[i].key
                                                } else {
                                                    multisig.signers[i]
                                                },
                                        ),
                                    }),
                                ),
                                ..accounts[0]
                            }),
                        ),
                    )
                }
            },
        }
    }
}

/// `Revoke`: the holding's owner withdraws the current delegation.
pub open spec fn spec_revoke(program_id: Seq<u8>, accounts: Seq<AccountV>) -> Result<
    Seq<AccountV>,
    ProgramError,
> {
    if accounts.len() < 2 {
        Err(ProgramError::NotEnoughAccountKeys)
    } else {
        match spec_unpack_token_account_checked(accounts[0].data) {
            Err(e) => Err(e),
            Ok(source) => if source.spec_is_frozen() {
                Err(tok_err(TokenError::AccountFrozen))
            } else {
                match spec_validate_owner(program_id, source.owner, accounts[1], accounts.skip(2)) {
                    Err(e) => Err(e),
                    Ok(u) => Ok(
                        accounts.update(
                            0,
                            (AccountV {
                                data: spec_pack_token_account(
                                    (crate::token::state::TokenAccountV {
                                        delegate: None,
                                        delegated_amount: 0,
                                        ..source
                                    }),
                                ),
                                ..accounts[0]
                            }),
                        ),
                    ),
                }
            },
        }
    }
}

/// `Approve`: the holding's owner appoints a delegate for `amount`.
pub open spec fn spec_approve(
    program_id: Seq<u8>,
    accounts: Seq<AccountV>,
    amount: u64,
    expected_decimals: Option<u8>,
) -> Result<Seq<AccountV>, ProgramError> {
    let o: int = if expected_decimals is Some {
        1
    } else {
        0
    };
    if accounts.len() < 3 + o {
        Err(ProgramError::NotEnoughAccountKeys)
    } else {
        match spec_unpack_token_account_checked(accounts[0].data) {
            Err(e) => Err(e),
            Ok(source) => if source.spec_is_frozen() {
                Err(tok_err(TokenError::AccountFrozen))
            } else {
                let decimals_check: Result<(), ProgramError> = match expected_decimals {
                    Some(d) => if accounts[1].key != source.mint {
                        Err(tok_err(TokenError::MintMismatch))
                    } else {
                        match spec_unpack_mint_checked(accounts[1].data) {
                            Err(e) => Err(e),
                            Ok(mint) => if d != mint.decimals {
                                Err(tok_err(TokenError::MintDecimalsMismatch))
                            } else {
                                Ok(())
                            },
                        }
                    },
                    None => Ok(()),
                };
                match decimals_check {
                    Err(e) => Err(e),
                    Ok(u) => match spec_validate_owner(
                        program_id,
                        source.owner,
                        accounts[2 + o],
                        accounts.skip(3 + o),
                    ) {
                        Err(e) => Err(e),
                        Ok(u2) => Ok(
                            accounts.update(
                                0,
                                (AccountV {
                                    data: spec_pack_token_account(
                                        (crate::token::state::TokenAccountV {
                                            delegate: Some(accounts[1 + o].key),
                                            delegated_amount: amount,
                                            ..source
                                        }),
                                    ),
                                    ..accounts[0]
                                }),
                            ),
                        ),
                    },
                }
            },
        }
    }
}

/// The tail of a transfer once authority is settled: owner checks for
/// degenerate transfers, then the balance movement itself.  `source` is the
/// source record after any delegation accounting.
pub open spec fn spec_transfer_finish(
    program_id: Seq<u8>,
    accounts: Seq<AccountV>,
    amount: u64,
    o: int,
    source: crate::token::state::TokenAccountV,
    destination: crate::token::state::TokenAccountV,
) -> Result<Seq<AccountV>, ProgramError> {
    let self_transfer = accounts[0].key == accounts[1 + o].key;
    let owner_check: Result<(), ProgramError> = if self_transfer || amount == 0 {
        if accounts[0].owner != program_id {
            Err(ProgramError::IncorrectProgramId)
        } else if accounts[1 + o].owner != program_id {
            Err(ProgramError::IncorrectProgramId)
        } else {
            Ok(())
        }
    } else {
        Ok(())
    };
    match owner_check {
        Err(e) => Err(e),
        Ok(u) => if self_transfer {
            Ok(accounts)
        } else if destination.amount + amount > u64::MAX {
            Err(tok_err(TokenError::Overflow))
        } else {
            Ok(
                accounts.update(
                    0,
                    (AccountV {
                        data: spec_pack_token_account(
                            (crate::token::state::TokenAccountV {
                                amount: (source.amount - amount) as u64,
                                ..source
                            }),
                        ),
                        ..accounts[0]
                    }),
                ).update(
                    1 + o,
                    (AccountV {
                        data: spec_pack_token_account(
                            (crate::token::state::TokenAccountV {
                                amount: (destination.amount + amount) as u64,
                                ..destination
                            }),
                        ),
                        ..accounts[1 + o]
                    }),
                ),
            )
        },
    }
}

/// `Transfer`: moves `amount` between two holdings of one mint, spending a
/// delegation when the authority is the source's delegate, and leaving
/// everything unchanged on a transfer of an account to itself.
pub open spec fn spec_transfer(
    program_id: Seq<u8>,
    accounts: Seq<AccountV>,
    amount: u64,
    expected_decimals: Option<u8>,
) -> Result<Seq<AccountV>, ProgramError> {
    let o: int = if expected_decimals is Some {
        1
    } else {
        0
    };
    if accounts.len() < 3 + o {
        Err(ProgramError::NotEnoughAccountKeys)
    } else {
        match (
            spec_unpack_token_account_checked(accounts[0].data),
            spec_unpack_token_account_checked(accounts[1 + o].data),
        ) {
            (Err(e), _) => Err(e),
            (_, Err(e)) => Err(e),
            (Ok(source), Ok(destination)) => if source.spec_is_frozen()
                || destination.spec_is_frozen() {
                Err(tok_err(TokenError::AccountFrozen))
            } else if source.amount < amount {
                Err(tok_err(TokenError::InsufficientFunds))
            } else if source.mint != destination.mint {
                Err(tok_err(TokenError::MintMismatch))
            } else {
                let decimals_check: Result<(), ProgramError> = match expected_decimals {
                    Some(d) => if accounts[1].key != source.mint {
                        Err(tok_err(TokenError::MintMismatch))
                    } else {
                        match spec_unpack_mint_checked(accounts[1].data) {
                            Err(e) => Err(e),
                            Ok(mint) => if d != mint.decimals {
                                Err(tok_err(TokenError::MintDecimalsMismatch))
                            } else {
                                Ok(())
                            },
                        }
                    },
                    None => Ok(()),
                };
                match decimals_check {
                    Err(e) => Err(e),
                    Ok(u) => {
                        let authority = accounts[2 + o];
                        let signers = accounts.skip(3 + o);
                        let self_transfer = accounts[0].key == accounts[1 + o].key;
                        if source.delegate == Some(authority.key) {
                            match spec_validate_owner(
                                program_id,
                                authority.key,
                                authority,
                                signers,
                            ) {
                                Err(e) => Err(e),
                                Ok(u2) => if source.delegated_amount < amount {
                                    Err(tok_err(TokenError::InsufficientFunds))
                                } else {
                                    let source2 = if !self_transfer {
                                        let remaining = (source.delegated_amount - amount) as u64;
                                        (crate::token::state::TokenAccountV {
                                            delegate: if remaining == 0 {
                                                None
                                            } else {
                                                source.delegate
                                            },
                                            delegated_amount: remaining,
                                            ..source
                                        })
                                    } else {
                                        source
                                    };
                                    spec_transfer_finish(
                                        program_id,
                                        accounts,
                                        amount,
                                        o,
                                        source2,
                                        destination,
                                    )
                                },
                            }
                        } else {
                            match spec_validate_owner(
                                program_id,
                                source.owner,
                                authority,
                                signers,
                            ) {
                                Err(e) => Err(e),
                                Ok(u2) => spec_transfer_finish(
                                    program_id,
                                    accounts,
                                    amount,
                                    o,
                                    source,
                                    destination,
                                ),
                            }
                        }
                    },
                }
            },
        }
    }
}

/// `MintTo`: the mint authority issues `amount` new tokens to a holding.
pub open spec fn spec_mint_to(
    program_id: Seq<u8>,
    accounts: Seq<AccountV>,
    amount: u64,
    expected_decimals: Option<u8>,
) -> Result<Seq<AccountV>, ProgramError> {
    if accounts.len() < 3 {
        Err(ProgramError::NotEnoughAccountKeys)
    } else {
        match spec_unpack_token_account_checked(accounts[1].data) {
            Err(e) => Err(e),
            Ok(destination) => if destination.spec_is_frozen() {
                Err(tok_err(TokenError::AccountFrozen))
            } else if accounts[0].key != destination.mint {
                Err(tok_err(TokenError::MintMismatch))
            } else {
                match spec_unpack_mint_checked(accounts[0].data) {
                    Err(e) => Err(e),
                    Ok(mint) => {
                        let decimals_ok = match expected_decimals {
                            Some(d) => d == mint.decimals,
                            None => true,
                        };
                        if !decimals_ok {
                            Err(tok_err(TokenError::MintDecimalsMismatch))
                        } else {
                            match mint.mint_authority {
                                None => Err(tok_err(TokenError::FixedSupply)),
                                Some(mint_authority) => match spec_validate_owner(
                                    program_id,
                                    mint_authority,
                                    accounts[2],
                                    accounts.skip(3),
                                ) {
                                    Err(e) => Err(e),
                                    Ok(u) => {
                                        let owner_check: Result<(), ProgramError> = if amount
                                            == 0 {
                                            if accounts[0].owner != program_id {
                                                Err(ProgramError::IncorrectProgramId)
                                            } else if accounts[1].owner != program_id {
                                                Err(ProgramError::IncorrectProgramId)
                                            } else {
                                                Ok(())
                                            }
                                        } else {
                                            Ok(())
                                        };
                                        match owner_check {
                                            Err(e) => Err(e),
                                            Ok(u2) => if destination.amount + amount > u64::MAX {
                                                Err(tok_err(TokenError::Overflow))
                                            } else if mint.supply + amount > u64::MAX {
                                                Err(tok_err(TokenError::Overflow))
                                            } else {
                                                Ok(
                                                    accounts.update(
                                                        1,
                                                        (AccountV {
                                                            data: spec_pack_token_account(
                                                                (crate::token::state::TokenAccountV {
                                                                    amount: (destination.amount
                                                                        + amount) as u64,
                                                                    ..destination
                                                                }),
                                                            ),
                                                            ..accounts[1]
                                                        }),
                                                    ).update(
                                                        0,
                                                        (AccountV {
                                                            data: spec_pack_mint(
                                                                (crate::token::state::MintV {
                                                                    supply: (mint.supply
                                                                        + amount) as u64,
                                                                    ..mint
                                                                }),
                                                            ),
                                                            ..accounts[0]
                                                        }),
                                                    ),
                                                )
                                            },
                                        }
                                    },
                                },
                            }
                        }
                    },
                }
            },
        }
    }
}

/// `Burn`: destroys `amount` tokens of a holding and shrinks the mint's
/// supply with them.
pub open spec fn spec_burn(
    program_id: Seq<u8>,
    accounts: Seq<AccountV>,
    amount: u64,
    expected_decimals: Option<u8>,
) -> Result<Seq<AccountV>, ProgramError> {
    if accounts.len() < 3 {
        Err(ProgramError::NotEnoughAccountKeys)
    } else {
        match (
            spec_unpack_token_account_checked(accounts[0].data),
            spec_unpack_mint_checked(accounts[1].data),
        ) {
            (Err(e), _) => Err(e),
            (_, Err(e)) => Err(e),
            (Ok(source), Ok(mint)) => if source.spec_is_frozen() {
                Err(tok_err(TokenError::AccountFrozen))
            } else if source.amount < amount {
                Err(tok_err(TokenError::InsufficientFunds))
            } else if accounts[1].key != source.mint {
                Err(tok_err(TokenError::MintMismatch))
            } else {
                let decimals_ok = match expected_decimals {
                    Some(d) => d == mint.decimals,
                    None => true,
                };
                if !decimals_ok {
                    Err(tok_err(TokenError::MintDecimalsMismatch))
                } else {
                    let owner_check: Result<(), ProgramError> = if amount == 0 {
                        if accounts[0].owner != program_id {
                            Err(ProgramError::IncorrectProgramId)
                        } else if accounts[1].owner != program_id {
                            Err(ProgramError::IncorrectProgramId)
                        } else {
                            Ok(())
                        }
                    } else {
                        Ok(())
                    };
                    match owner_check {
                        Err(e) => Err(e),
                        Ok(u) => if mint.supply < amount {
                            Err(tok_err(TokenError::Overflow))
                        } else {
                            Ok(
                                accounts.update(
                                    0,
                                    (AccountV {
                                        data: spec_pack_token_account(
                                            (crate::token::state::TokenAccountV {
                                                amount: (source.amount - amount) as u64,
                                                ..source
                                            }),
                                        ),
                                        ..accounts[0]
                                    }),
                                ).update(
                                    1,
                                    (AccountV {
                                        data: spec_pack_mint(
                                            (crate::token::state::MintV {
                                                supply: (mint.supply - amount) as u64,
                                                ..mint
                                            }),
                                        ),
                                        ..accounts[1]
                                    }),
                                ),
                            )
                        },
                    }
                }
            },
        }
    }
}

/// The all-ones key that closed accounts are handed to.
pub open spec fn spec_system_owner() -> Seq<u8> {
    Seq::new(32, |i: int| 49u8)
}

/// `CloseAccount`: empties a holding record, zeroing its bytes and handing
/// it back to the system program.
pub open spec fn spec_close_account(accounts: Seq<AccountV>) -> Result<Seq<AccountV>, ProgramError> {
    if accounts.len() < 3 {
        Err(ProgramError::NotEnoughAccountKeys)
    } else if accounts[0].key == accounts[1].key {
        Err(ProgramError::InvalidAccountData)
    } else {
        match spec_unpack_token_account_checked(accounts[0].data) {
            Err(e) => Err(e),
            Ok(source) => Ok(
                accounts.update(
                    0,
                    (AccountV {
                        owner: spec_system_owner(),
                        data: Seq::new(accounts[0].data.len(), |i: int| 0u8),
                        ..accounts[0]
                    }),
                ),
            ),
        }
    }
}

/// `FreezeAccount` / `ThawAccount`: the mint's freeze authority toggles a
/// holding between frozen and initialized.
pub open spec fn spec_toggle_freeze_account(
    program_id: Seq<u8>,
    accounts: Seq<AccountV>,
    freeze: bool,
) -> Result<Seq<AccountV>, ProgramError> {
    if accounts.len() < 3 {
        Err(ProgramError::NotEnoughAccountKeys)
    } else {
        match spec_unpack_token_account_checked(accounts[0].data) {
            Err(e) => Err(e),
            Ok(source) => if freeze == source.spec_is_frozen() {
                Err(tok_err(TokenError::InvalidState))
            } else if accounts[1].key != source.mint {
                Err(tok_err(TokenError::MintMismatch))
            } else {
                match spec_unpack_mint_checked(accounts[1].data) {
                    Err(e) => Err(e),
                    Ok(mint) => match mint.freeze_authority {
                        None => Err(tok_err(TokenError::MintCannotFreeze)),
                        Some(authority) => match spec_validate_owner(
                            program_id,
                            authority,
                            accounts[2],
                            accounts.skip(3),
                        ) {
                            Err(e) => Err(e),
                            Ok(u) => Ok(
                                accounts.update(
                                    0,
                                    (AccountV {
                                        data: spec_pack_token_account(
                                            (crate::token::state::TokenAccountV {
                                                state: if freeze {
                                                    AccountState::Frozen
                                                } else {
                                                    AccountState::Initialized
                                                },
                                                ..source
                                            }),
                                        ),
                                        ..accounts[0]
                                    }),
                                ),
                            ),
                        },
                    },
                }
            },
        }
    }
}

/// `SetAuthority`: replaces one of the authorities of a holding or mint
/// record, the record kind told apart by its stored length.
pub open spec fn spec_set_authority(
    program_id: Seq<u8>,
    accounts: Seq<AccountV>,
    authority_type: AuthorityType,
    new_authority: Option<Seq<u8>>,
) -> Result<Seq<AccountV>, ProgramError> {
    if accounts.len() < 2 {
        Err(ProgramError::NotEnoughAccountKeys)
    } else if accounts[0].data.len() == 165 {
        match spec_unpack_token_account_checked(accounts[0].data) {
            Err(e) => Err(e),
            Ok(account) => if account.spec_is_frozen() {
                Err(tok_err(TokenError::AccountFrozen))
            } else {
                match authority_type {
                    AuthorityType::AccountOwner => match spec_validate_owner(
                        program_id,
                        account.owner,
                        accounts[1],
                        accounts.skip(2),
                    ) {
                        Err(e) => Err(e),
                        Ok(u) => match new_authority {
                            None => Err(tok_err(TokenError::InvalidInstruction)),
                            Some(authority) => Ok(
                                accounts.update(
                                    0,
                                    (AccountV {
                                        data: spec_pack_token_account(
                                            (crate::token::state::TokenAccountV {
                                                owner: authority,
                                                delegate: None,
                                                delegated_amount: 0,
                                                ..account
                                            }),
                                        ),
                                        ..accounts[0]
                                    }),
                                ),
                            ),
                        },
                    },
                    AuthorityType::CloseAccount => {
                        let authority = match account.close_authority {
                            Some(a) => a,
                            None => account.owner,
                        };
                        match spec_validate_owner(
                            program_id,
                            authority,
                            accounts[1],
                            accounts.skip(2),
                        ) {
                            Err(e) => Err(e),
                            Ok(u) => Ok(
                                accounts.update(
                                    0,
                                    (AccountV {
                                        data: spec_pack_token_account(
                                            (crate::token::state::TokenAccountV {
                                                close_authority: new_authority,
                                                ..account
                                            }),
                                        ),
                                        ..accounts[0]
                                    }),
                                ),
                            ),
                        }
                    },
                    _ => Err(tok_err(TokenError::AuthorityTypeNotSupported)),
                }
            },
        }
    } else if accounts[0].data.len() == 82 {
        match spec_unpack_mint_checked(accounts[0].data) {
            Err(e) => Err(e),
            Ok(mint) => match authority_type {
                AuthorityType::MintTokens => match mint.mint_authority {
                    None => Err(tok_err(TokenError::FixedSupply)),
                    Some(mint_authority) => match spec_validate_owner(
                        program_id,
                        mint_authority,
                        accounts[1],
                        accounts.skip(2),
                    ) {
                        Err(e) => Err(e),
                        Ok(u) => Ok(
                            accounts.update(
                                0,
                                (AccountV {
                                    data: spec_pack_mint(
                                        (crate::token::state::MintV {
                                            mint_authority: new_authority,
                                            ..mint
                                        }),
                                    ),
                                    ..accounts[0]
                                }),
                            ),
                        ),
                    },
                },
                AuthorityType::FreezeAccount => match mint.freeze_authority {
                    None => Err(tok_err(TokenError::MintCannotFreeze)),
                    Some(freeze_authority) => match spec_validate_owner(
                        program_id,
                        freeze_authority,
                        accounts[1],
                        accounts.skip(2),
                    ) {
                        Err(e) => Err(e),
                        Ok(u) => Ok(
                            accounts.update(
                                0,
                                (AccountV {
                                    data: spec_pack_mint(
                                        (crate::token::state::MintV {
                                            freeze_authority: new_authority,
                                            ..mint
                                        }),
                                    ),
                                    ..accounts[0]
                                }),
                            ),
                        ),
                    },
                },
                _ => Err(tok_err(TokenError::AuthorityTypeNotSupported)),
            },
        }
    } else {
        Err(ProgramError::InvalidArgument)
    }
}

/// `GetAccountDataSize`: on a valid mint owned by this program, the
/// little-endian bytes of a holding record's length.
pub open spec fn spec_get_account_data_size(program_id: Seq<u8>, accounts: Seq<AccountV>) -> Result<
    Seq<u8>,
    ProgramError,
> {
    if accounts.len() < 1 {
        Err(ProgramError::NotEnoughAccountKeys)
    } else if accounts[0].owner != program_id {
        Err(ProgramError::IncorrectProgramId)
    } else {
        match spec_unpack_mint_checked(accounts[0].data) {
            Err(e) => Err(tok_err(TokenError::InvalidMint)),
            Ok(mint) => Ok(vstd::bytes::spec_u64_to_le_bytes(165)),
        }
    }
}

/// `InitializeImmutableOwner`: accepted on an uninitialized holding record
/// and rejected on a used one; no state changes either way.
pub open spec fn spec_initialize_immutable_owner(accounts: Seq<AccountV>) -> Result<
    (),
    ProgramError,
> {
    if accounts.len() < 1 {
        Err(ProgramError::NotEnoughAccountKeys)
    } else {
        match spec_unpack_token_account(accounts[0].data) {
            Err(e) => Err(e),
            Ok(account) => if account.spec_is_initialized() {
                Err(tok_err(TokenError::AlreadyInUse))
            } else {
                Ok(())
            },
        }
    }
}

/// `AmountToUiAmount`: on a valid mint owned by this program, the trimmed
/// decimal rendering of `amount` under the mint's precision.
pub open spec fn spec_amount_to_ui_amount(
    program_id: Seq<u8>,
    accounts: Seq<AccountV>,
    amount: u64,
) -> Result<Seq<u8>, ProgramError> {
    if accounts.len() < 1 {
        Err(ProgramError::NotEnoughAccountKeys)
    } else if accounts[0].owner != program_id {
        Err(ProgramError::IncorrectProgramId)
    } else {
        match spec_unpack_mint_checked(accounts[0].data) {
            Err(e) => Err(tok_err(TokenError::InvalidMint)),
            Ok(mint) => Ok(crate::token::uiamount::spec_ui_amount_bytes(amount, mint.decimals)),
        }
    }
}

/// `UiAmountToAmount`: on a valid mint owned by this program, the raw
/// amount encoded by a decimal string under the mint's precision, as
/// little-endian bytes.
pub open spec fn spec_ui_amount_to_amount(
    program_id: Seq<u8>,
    accounts: Seq<AccountV>,
    ui_amount: Seq<u8>,
) -> Result<Seq<u8>, ProgramError> {
    if accounts.len() < 1 {
        Err(ProgramError::NotEnoughAccountKeys)
    } else if accounts[0].owner != program_id {
        Err(ProgramError::IncorrectProgramId)
    } else {
        match spec_unpack_mint_checked(accounts[0].data) {
            Err(e) => Err(tok_err(TokenError::InvalidMint)),
            Ok(mint) => match crate::token::uiamount::spec_try_ui_amount(
                ui_amount,
                mint.decimals,
            ) {
                Err(e) => Err(e),
                Ok(v) => Ok(vstd::bytes::spec_u64_to_le_bytes(v)),
            },
        }
    }
}

/// Pairs a state transition with an empty return payload.
pub open spec fn spec_state_only(r: Result<Seq<AccountV>, ProgramError>) -> Result<
    (Seq<AccountV>, Seq<u8>),
    ProgramError,
> {
    match r {
        Ok(s) => Ok((s, Seq::empty())),
        Err(e) => Err(e),
    }
}

/// Pairs an unchanged account list with a return payload.
pub open spec fn spec_bytes_only(accounts: Seq<AccountV>, r: Result<Seq<u8>, ProgramError>) -> Result<
    (Seq<AccountV>, Seq<u8>),
    ProgramError,
> {
    match r {
        Ok(b) => Ok((accounts, b)),
        Err(e) => Err(e),
    }
}

/// One dispatched ledger instruction: the accounts after it and the bytes
/// it reports back.
pub open spec fn spec_process(
    program_id: Seq<u8>,
    accounts: Seq<AccountV>,
    instruction: TokenInstruction,
) -> Result<(Seq<AccountV>, Seq<u8>), ProgramError> {
    match instruction {
        TokenInstruction::InitializeMint { decimals, mint_authority, freeze_authority } => spec_state_only(
            spec_initialize_mint(accounts, decimals, mint_authority@, spec_key_opt(freeze_authority)),
        ),
        TokenInstruction::InitializeMint2 { decimals, mint_authority, freeze_authority } => spec_state_only(
            spec_initialize_mint(accounts, decimals, mint_authority@, spec_key_opt(freeze_authority)),
        ),
        TokenInstruction::InitializeAccount => spec_state_only(
            spec_initialize_account(accounts, None),
        ),
        TokenInstruction::InitializeAccount2 { owner } => spec_state_only(
            spec_initialize_account(accounts, Some(owner@)),
        ),
        TokenInstruction::InitializeAccount3 { owner } => spec_state_only(
            spec_initialize_account(accounts, Some(owner@)),
        ),
        TokenInstruction::InitializeMultisig { m } => spec_state_only(
            spec_initialize_multisig(accounts, m),
        ),
        TokenInstruction::Transfer { amount } => spec_state_only(
            spec_transfer(program_id, accounts, amount, None),
        ),
        TokenInstruction::Approve { amount } => spec_state_only(
            spec_approve(program_id, accounts, amount, None),
        ),
        TokenInstruction::Revoke => spec_state_only(spec_revoke(program_id, accounts)),
        TokenInstruction::SetAuthority { authority_type, new_authority } => spec_state_only(
            spec_set_authority(program_id, accounts, authority_type, spec_key_opt(new_authority)),
        ),
        TokenInstruction::MintTo { amount } => spec_state_only(
            spec_mint_to(program_id, accounts, amount, None),
        ),
        TokenInstruction::Burn { amount } => spec_state_only(
            spec_burn(program_id, accounts, amount, None),
        ),
        TokenInstruction::CloseAccount => spec_state_only(spec_close_account(accounts)),
        TokenInstruction::FreezeAccount => spec_state_only(
            spec_toggle_freeze_account(program_id, accounts, true),
        ),
        TokenInstruction::ThawAccount => spec_state_only(
            spec_toggle_freeze_account(program_id, accounts, false),
        ),
        TokenInstruction::TransferChecked { amount, decimals } => spec_state_only(
            spec_transfer(program_id, accounts, amount, Some(decimals)),
        ),
        TokenInstruction::ApproveChecked { amount, decimals } => spec_state_only(
            spec_approve(program_id, accounts, amount, Some(decimals)),
        ),
        TokenInstruction::MintToChecked { amount, decimals } => spec_state_only(
            spec_mint_to(program_id, accounts, amount, Some(decimals)),
        ),
        TokenInstruction::BurnChecked { amount, decimals } => spec_state_only(
            spec_burn(program_id, accounts, amount, Some(decimals)),
        ),
        TokenInstruction::GetAccountDataSize => spec_bytes_only(
            accounts,
            spec_get_account_data_size(program_id, accounts),
        ),
        TokenInstruction::InitializeImmutableOwner => match spec_initialize_immutable_owner(
            accounts,
        ) {
            Ok(u) => Ok((accounts, Seq::empty())),
            Err(e) => Err(e),
        },
        TokenInstruction::AmountToUiAmount { amount } => spec_bytes_only(
            accounts,
            spec_amount_to_ui_amount(program_id, accounts, amount),
        ),
        TokenInstruction::UiAmountToAmount { ui_amount } => spec_bytes_only(
            accounts,
            spec_ui_amount_to_amount(program_id, accounts, ui_amount@),
        ),
    }
}

/// Hands account `i` back to the system program and zeroes its bytes.
fn delete_account(accounts: &mut Vec<AccountInfo>, i: usize)
    requires
        i < old(accounts)@.len(),
    ensures
        accounts_view(final(accounts)@) == accounts_view(old(accounts)@).update(
            i as int,
            (AccountV {
                owner: spec_system_owner(),
                data: Seq::new(accounts_view(old(accounts)@)[i as int].data.len(), |k: int| 0u8),
                ..accounts_view(old(accounts)@)[i as int]
            }),
        ),
{
    let data_len = accounts[i].data.len();
    let mut zeroed: Vec<u8> = Vec::new();
    crate::token::state::push_zeros(&mut zeroed, data_len);
    let system_owner_bytes: [u8; 32] = [49u8; 32];
    let a = &accounts[i];
    let replacement = AccountInfo {
        key: a.key,
        owner: Pubkey { bytes: system_owner_bytes },
        is_signer: a.is_signer,
        is_writable: a.is_writable,
        data: zeroed,
    };
    vstd::pervasive::VecAdditionalExecFns::set(accounts, i, replacement);
    proof {
        assert(Pubkey { bytes: system_owner_bytes }@ =~= spec_system_owner());
        assert(accounts_view(accounts@) =~= accounts_view(old(accounts)@).update(
            i as int,
            (AccountV {
                owner: spec_system_owner(),
                data: Seq::new(accounts_view(old(accounts)@)[i as int].data.len(), |k: int| 0u8),
                ..accounts_view(old(accounts)@)[i as int]
            }),
        ));
    }
}

/// Program state handler.
pub struct Processor {}

impl Processor {
    fn _process_initialize_mint(
        accounts: &mut Vec<AccountInfo>,
        decimals: u8,
        mint_authority: Pubkey,
        freeze_authority: Option<Pubkey>,
    ) -> (r: Result<(), ProgramError>)
        ensures
            match spec_initialize_mint(
                accounts_view(old(accounts)@),
                decimals,
                mint_authority@,
                spec_key_opt(freeze_authority),
            ) {
                Ok(s) => r is Ok && accounts_view(final(accounts)@) == s,
                Err(e) => r == Err::<(), ProgramError>(e) && final(accounts)@ == old(accounts)@,
            },
    {
        if accounts.len() < 1 {
            return Err(ProgramError::NotEnoughAccountKeys);
        }
        let mut mint = match Mint::unpack_unchecked(accounts[0].data.as_slice()) {
            Ok(m) => m,
            Err(e) => {
                return Err(e);
            },
        };
        if mint.is_initialized {
            return Err(TokenError::AlreadyInUse.to_program_error());
        }

        mint.mint_authority = Some(mint_authority);
        mint.decimals = decimals;
        mint.is_initialized = true;
        mint.freeze_authority = freeze_authority;

        let mut packed: Vec<u8> = Vec::new();
        mint.pack_into_slice(&mut packed);
        set_account_data(accounts, 0, packed);
        Ok(())
    }

    /// Processes an `InitializeMint` instruction.
    pub fn process_initialize_mint(
        accounts: &mut Vec<AccountInfo>,
        decimals: u8,
        mint_authority: Pubkey,
        freeze_authority: Option<Pubkey>,
    ) -> (r: Result<(), ProgramError>)
        ensures
            match spec_initialize_mint(
                accounts_view(old(accounts)@),
                decimals,
                mint_authority@,
                spec_key_opt(freeze_authority),
            ) {
                Ok(s) => r is Ok && accounts_view(final(accounts)@) == s,
                Err(e) => r == Err::<(), ProgramError>(e) && final(accounts)@ == old(accounts)@,
            },
    {
        Self::_process_initialize_mint(accounts, decimals, mint_authority, freeze_authority)
    }

    /// Processes an `InitializeMint2` instruction.
    pub fn process_initialize_mint2(
        accounts: &mut Vec<AccountInfo>,
        decimals: u8,
        mint_authority: Pubkey,
        freeze_authority: Option<Pubkey>,
    ) -> (r: Result<(), ProgramError>)
        ensures
            match spec_initialize_mint(
                accounts_view(old(accounts)@),
                decimals,
                mint_authority@,
                spec_key_opt(freeze_authority),
            ) {
                Ok(s) => r is Ok && accounts_view(final(accounts)@) == s,
                Err(e) => r == Err::<(), ProgramError>(e) && final(accounts)@ == old(accounts)@,
            },
    {
        Self::_process_initialize_mint(accounts, decimals, mint_authority, freeze_authority)
    }

    fn _process_initialize_account(
        program_id: &Pubkey,
        accounts: &mut Vec<AccountInfo>,
        owner: Option<&Pubkey>,
    ) -> (r: Result<(), ProgramError>)
        ensures
            match spec_initialize_account(
                accounts_view(old(accounts)@),
                match owner {
                    Some(o) => Some(o@),
                    None => None,
                },
            ) {
                Ok(s) => r is Ok && accounts_view(final(accounts)@) == s,
                Err(e) => r == Err::<(), ProgramError>(e) && final(accounts)@ == old(accounts)@,
            },
    {
        let needed: usize = if owner.is_some() {
            2
        } else {
            3
        };
        if accounts.len() < needed {
            return Err(ProgramError::NotEnoughAccountKeys);
        }
        let owner_key: Pubkey = match owner {
            Some(o) => *o,
            None => accounts[2].key,
        };

        let mut account = match Account::unpack_unchecked(accounts[0].data.as_slice()) {
            Ok(a) => a,
            Err(e) => {
                return Err(e);
            },
        };
        if account.is_initialized() {
            return Err(TokenError::AlreadyInUse.to_program_error());
        }

        account.mint = accounts[1].key;
        account.owner = owner_key;
        account.close_authority = None;
        account.delegate = None;
        account.delegated_amount = 0;
        account.state = AccountState::Initialized;

        let mut packed: Vec<u8> = Vec::new();
        account.pack_into_slice(&mut packed);
        set_account_data(accounts, 0, packed);
        Ok(())
    }

    /// Processes an `InitializeAccount` instruction.
    pub fn process_initialize_account(program_id: &Pubkey, accounts: &mut Vec<AccountInfo>) -> (r:
        Result<(), ProgramError>)
        ensures
            match spec_initialize_account(accounts_view(old(accounts)@), None) {
                Ok(s) => r is Ok && accounts_view(final(accounts)@) == s,
                Err(e) => r == Err::<(), ProgramError>(e) && final(accounts)@ == old(accounts)@,
            },
    {
        Self::_process_initialize_account(program_id, accounts, None)
    }

    /// Processes an `InitializeAccount2` instruction.
    pub fn process_initialize_account2(
        program_id: &Pubkey,
        accounts: &mut Vec<AccountInfo>,
        owner: Pubkey,
    ) -> (r: Result<(), ProgramError>)
        ensures
            match spec_initialize_account(accounts_view(old(accounts)@), Some(owner@)) {
                Ok(s) => r is Ok && accounts_view(final(accounts)@) == s,
                Err(e) => r == Err::<(), ProgramError>(e) && final(accounts)@ == old(accounts)@,
            },
    {
        Self::_process_initialize_account(program_id, accounts, Some(&owner))
    }

    /// Processes an `InitializeAccount3` instruction.
    pub fn process_initialize_account3(
        program_id: &Pubkey,
        accounts: &mut Vec<AccountInfo>,
        owner: Pubkey,
    ) -> (r: Result<(), ProgramError>)
        ensures
            match spec_initialize_account(accounts_view(old(accounts)@), Some(owner@)) {
                Ok(s) => r is Ok && accounts_view(final(accounts)@) == s,
                Err(e) => r == Err::<(), ProgramError>(e) && final(accounts)@ == old(accounts)@,
            },
    {
        Self::_process_initialize_account(program_id, accounts, Some(&owner))
    }

    fn _process_initialize_multisig(accounts: &mut Vec<AccountInfo>, m: u8) -> (r: Result<
        (),
        ProgramError,
    >)
        ensures
            match spec_initialize_multisig(accounts_view(old(accounts)@), m) {
                Ok(s) => r is Ok && accounts_view(final(accounts)@) == s,
                Err(e) => r == Err::<(), ProgramError>(e) && final(accounts)@ == old(accounts)@,
            },
    {
        if accounts.len() < 1 {
            return Err(ProgramError::NotEnoughAccountKeys);
        }
        let mut multisig = match Multisig::unpack_unchecked(accounts[0].data.as_slice()) {
            Ok(ms) => ms,
            Err(e) => {
                return Err(e);
            },
        };
        if multisig.is_initialized {
            return Err(TokenError::AlreadyInUse.to_program_error());
        }

        let signer_count = accounts.len() - 1;
        if !is_valid_signer_index(signer_count) {
            return Err(TokenError::InvalidNumberOfProvidedSigners.to_program_error());
        }
        multisig.m = m;
        multisig.n = signer_count as u8;
        if !is_valid_signer_index(multisig.m as usize) {
            return Err(TokenError::InvalidNumberOfRequiredSigners.to_program_error());
        }
        let ghost orig_signers = multisig@.signers;
        let mut i: usize = 0;
        while i < signer_count
            invariant
                accounts@.len() == signer_count + 1,
                signer_count as int == multisig.n as int,
                1 <= multisig.n <= 11,
                0 <= i <= signer_count,
                forall|k: int|
                    0 <= k < i && k < 11 ==> multisig.signers@[k]@ == accounts_view(
                        accounts@,
                    ).skip(1)[k].key,
                forall|k: int| i <= k < 11 ==> multisig.signers@[k]@ == orig_signers[k],
                multisig.m == m,
                multisig.is_initialized == false,
            decreases signer_count - i,
        {
            // `n` passed the signer-index check, so at most eleven signers
            // are recorded; later ones would not fit the record.
            if i < 11 {
                multisig.signers[i] = accounts[i + 1].key;
            }
            i += 1;
        }
        multisig.is_initialized = true;

        let mut packed: Vec<u8> = Vec::new();
        multisig.pack_into_slice(&mut packed);
        set_account_data(accounts, 0, packed);
        proof {
            let sv = accounts_view(old(accounts)@);
            let signer_infos = sv.skip(1);
            assert(multisig@.signers =~= Seq::new(
                11,
                |k: int|
                    if k < signer_infos.len() {
                        signer_infos[k].key
                    } else {
                        spec_unpack_multisig(sv[0].data)->Ok_0.signers[k]
                    },
            ));
            assert(accounts_view(accounts@) =~= spec_initialize_multisig(sv, m)->Ok_0);
        }
        Ok(())
    }

    /// Processes an `InitializeMultisig` instruction.
    pub fn process_initialize_multisig(accounts: &mut Vec<AccountInfo>, m: u8) -> (r: Result<
        (),
        ProgramError,
    >)
        ensures
            match spec_initialize_multisig(accounts_view(old(accounts)@), m) {
                Ok(s) => r is Ok && accounts_view(final(accounts)@) == s,
                Err(e) => r == Err::<(), ProgramError>(e) && final(accounts)@ == old(accounts)@,
            },
    {
        Self::_process_initialize_multisig(accounts, m)
    }

    /// Processes a `Revoke` instruction.
    pub fn process_revoke(program_id: &Pubkey, accounts: &mut Vec<AccountInfo>) -> (r: Result<
        (),
        ProgramError,
    >)
        ensures
            match spec_revoke(program_id@, accounts_view(old(accounts)@)) {
                Ok(s) => r is Ok && accounts_view(final(accounts)@) == s,
                Err(e) => r == Err::<(), ProgramError>(e) && final(accounts)@ == old(accounts)@,
            },
    {
        if accounts.len() < 2 {
            return Err(ProgramError::NotEnoughAccountKeys);
        }
        let mut source_account = match Account::unpack(accounts[0].data.as_slice()) {
            Ok(a) => a,
            Err(e) => {
                return Err(e);
            },
        };
        if source_account.is_frozen() {
            return Err(TokenError::AccountFrozen.to_program_error());
        }
        let signers = vstd::slice::slice_subrange(accounts.as_slice(), 2, accounts.len());
        match Self::validate_owner(program_id, &source_account.owner, &accounts[1], signers) {
            Ok(u) => (),
            Err(e) => {
                proof {
                    assert(accounts_view(signers@) =~= accounts_view(accounts@).skip(2));
                }
                return Err(e);
            },
        };
        proof {
            assert(accounts_view(signers@) =~= accounts_view(accounts@).skip(2));
        }

        source_account.delegate = None;
        source_account.delegated_amount = 0;

        let mut packed: Vec<u8> = Vec::new();
        source_account.pack_into_slice(&mut packed);
        set_account_data(accounts, 0, packed);
        Ok(())
    }

    /// Processes an `Approve` instruction.
    pub fn process_approve(
        program_id: &Pubkey,
        accounts: &mut Vec<AccountInfo>,
        amount: u64,
        expected_decimals: Option<u8>,
    ) -> (r: Result<(), ProgramError>)
        ensures
            match spec_approve(
                program_id@,
                accounts_view(old(accounts)@),
                amount,
                expected_decimals,
            ) {
                Ok(s) => r is Ok && accounts_view(final(accounts)@) == s,
                Err(e) => r == Err::<(), ProgramError>(e) && final(accounts)@ == old(accounts)@,
            },
    {
        let offset: usize = if expected_decimals.is_some() {
            1
        } else {
            0
        };
        if accounts.len() < 3 + offset {
            return Err(ProgramError::NotEnoughAccountKeys);
        }

        let mut source_account = match Account::unpack(accounts[0].data.as_slice()) {
            Ok(a) => a,
            Err(e) => {
                return Err(e);
            },
        };
        if source_account.is_frozen() {
            return Err(TokenError::AccountFrozen.to_program_error());
        }

        match expected_decimals {
            Some(d) => {
                if !(accounts[1].key == source_account.mint) {
                    return Err(TokenError::MintMismatch.to_program_error());
                }
                let mint = match Mint::unpack(accounts[1].data.as_slice()) {
                    Ok(m) => m,
                    Err(e) => {
                        return Err(e);
                    },
                };
                if d != mint.decimals {
                    return Err(TokenError::MintDecimalsMismatch.to_program_error());
                }
            },
            None => (),
        };

        let signers = vstd::slice::slice_subrange(accounts.as_slice(), 3 + offset, accounts.len());
        proof {
            assert(accounts_view(signers@) =~= accounts_view(accounts@).skip(3 + offset as int));
        }
        match Self::validate_owner(
            program_id,
            &source_account.owner,
            &accounts[2 + offset],
            signers,
        ) {
            Ok(u) => (),
            Err(e) => {
                return Err(e);
            },
        };

        source_account.delegate = Some(accounts[1 + offset].key);
        source_account.delegated_amount = amount;

        let mut packed: Vec<u8> = Vec::new();
        source_account.pack_into_slice(&mut packed);
        set_account_data(accounts, 0, packed);
        Ok(())
    }
    /// Processes a `Transfer` instruction.
    pub fn process_transfer(
        program_id: &Pubkey,
        accounts: &mut Vec<AccountInfo>,
        amount: u64,
        expected_decimals: Option<u8>,
    ) -> (r: Result<(), ProgramError>)
        ensures
            match spec_transfer(
                program_id@,
                accounts_view(old(accounts)@),
                amount,
                expected_decimals,
            ) {
                Ok(s) => r is Ok && accounts_view(final(accounts)@) == s,
                Err(e) => r == Err::<(), ProgramError>(e) && final(accounts)@ == old(accounts)@,
            },
    {
        let offset: usize = if expected_decimals.is_some() {
            1
        } else {
            0
        };
        if accounts.len() < 3 + offset {
            return Err(ProgramError::NotEnoughAccountKeys);
        }

        let mut source_account = match Account::unpack(accounts[0].data.as_slice()) {
            Ok(a) => a,
            Err(e) => {
                return Err(e);
            },
        };
        let mut destination_account = match Account::unpack(accounts[1 + offset].data.as_slice()) {
            Ok(a) => a,
            Err(e) => {
                return Err(e);
            },
        };

        if source_account.is_frozen() || destination_account.is_frozen() {
            return Err(TokenError::AccountFrozen.to_program_error());
        }
        if source_account.amount < amount {
            return Err(TokenError::InsufficientFunds.to_program_error());
        }
        if !Self::cmp_pubkeys(&source_account.mint, &destination_account.mint) {
            return Err(TokenError::MintMismatch.to_program_error());
        }

        match expected_decimals {
            Some(d) => {
                if !Self::cmp_pubkeys(&accounts[1].key, &source_account.mint) {
                    return Err(TokenError::MintMismatch.to_program_error());
                }
                let mint = match Mint::unpack(accounts[1].data.as_slice()) {
                    Ok(m) => m,
                    Err(e) => {
                        return Err(e);
                    },
                };
                if d != mint.decimals {
                    return Err(TokenError::MintDecimalsMismatch.to_program_error());
                }
            },
            None => (),
        };

        let self_transfer = Self::cmp_pubkeys(&accounts[0].key, &accounts[1 + offset].key);

        let delegate_is_authority = match &source_account.delegate {
            Some(delegate) => Self::cmp_pubkeys(delegate, &accounts[2 + offset].key),
            None => false,
        };
        {
            let signers = vstd::slice::slice_subrange(
                accounts.as_slice(),
                3 + offset,
                accounts.len(),
            );
            proof {
                assert(accounts_view(signers@) =~= accounts_view(accounts@).skip(
                    3 + offset as int,
                ));
            }
            if delegate_is_authority {
                let authority_key = accounts[2 + offset].key;
                match Self::validate_owner(
                    program_id,
                    &authority_key,
                    &accounts[2 + offset],
                    signers,
                ) {
                    Ok(u) => (),
                    Err(e) => {
                        return Err(e);
                    },
                };
                if source_account.delegated_amount < amount {
                    return Err(TokenError::InsufficientFunds.to_program_error());
                }
                if !self_transfer {
                    source_account.delegated_amount = source_account.delegated_amount - amount;
                    if source_account.delegated_amount == 0 {
                        source_account.delegate = None;
                    }
                }
            } else {
                match Self::validate_owner(
                    program_id,
                    &source_account.owner,
                    &accounts[2 + offset],
                    signers,
                ) {
                    Ok(u) => (),
                    Err(e) => {
                        return Err(e);
                    },
                };
            }
        }

        if self_transfer || amount == 0 {
            match Self::check_account_owner(program_id, &accounts[0]) {
                Ok(u) => (),
                Err(e) => {
                    return Err(e);
                },
            };
            match Self::check_account_owner(program_id, &accounts[1 + offset]) {
                Ok(u) => (),
                Err(e) => {
                    return Err(e);
                },
            };
        }

        // This check MUST occur just before the amounts are manipulated, so
        // that self-transfers are fully validated.
        if self_transfer {
            return Ok(());
        }

        source_account.amount = source_account.amount - amount;
        destination_account.amount = match destination_account.amount.checked_add(amount) {
            Some(v) => v,
            None => {
                return Err(TokenError::Overflow.to_program_error());
            },
        };

        let mut packed_source: Vec<u8> = Vec::new();
        source_account.pack_into_slice(&mut packed_source);
        set_account_data(accounts, 0, packed_source);
        let mut packed_destination: Vec<u8> = Vec::new();
        destination_account.pack_into_slice(&mut packed_destination);
        set_account_data(accounts, 1 + offset, packed_destination);
        Ok(())
    }

    /// Processes a `MintTo` instruction.
    pub fn process_mint_to(
        program_id: &Pubkey,
        accounts: &mut Vec<AccountInfo>,
        amount: u64,
        expected_decimals: Option<u8>,
    ) -> (r: Result<(), ProgramError>)
        ensures
            match spec_mint_to(
                program_id@,
                accounts_view(old(accounts)@),
                amount,
                expected_decimals,
            ) {
                Ok(s) => r is Ok && accounts_view(final(accounts)@) == s,
                Err(e) => r == Err::<(), ProgramError>(e) && final(accounts)@ == old(accounts)@,
            },
    {
        if accounts.len() < 3 {
            return Err(ProgramError::NotEnoughAccountKeys);
        }

        let mut destination_account = match Account::unpack(accounts[1].data.as_slice()) {
            Ok(a) => a,
            Err(e) => {
                return Err(e);
            },
        };
        if destination_account.is_frozen() {
            return Err(TokenError::AccountFrozen.to_program_error());
        }

        if !Self::cmp_pubkeys(&accounts[0].key, &destination_account.mint) {
            return Err(TokenError::MintMismatch.to_program_error());
        }

        let mut mint = match Mint::unpack(accounts[0].data.as_slice()) {
            Ok(m) => m,
            Err(e) => {
                return Err(e);
            },
        };
        match expected_decimals {
            Some(d) => {
                if d != mint.decimals {
                    return Err(TokenError::MintDecimalsMismatch.to_program_error());
                }
            },
            None => (),
        };

        {
            let signers = vstd::slice::slice_subrange(accounts.as_slice(), 3, accounts.len());
            proof {
                assert(accounts_view(signers@) =~= accounts_view(accounts@).skip(3));
            }
            match &mint.mint_authority {
                Some(mint_authority) => {
                    match Self::validate_owner(program_id, mint_authority, &accounts[2], signers) {
                        Ok(u) => (),
                        Err(e) => {
                            return Err(e);
                        },
                    }
                },
                None => {
                    return Err(TokenError::FixedSupply.to_program_error());
                },
            };
        }

        if amount == 0 {
            match Self::check_account_owner(program_id, &accounts[0]) {
                Ok(u) => (),
                Err(e) => {
                    return Err(e);
                },
            };
            match Self::check_account_owner(program_id, &accounts[1]) {
                Ok(u) => (),
                Err(e) => {
                    return Err(e);
                },
            };
        }

        destination_account.amount = match destination_account.amount.checked_add(amount) {
            Some(v) => v,
            None => {
                return Err(TokenError::Overflow.to_program_error());
            },
        };
        mint.supply = match mint.supply.checked_add(amount) {
            Some(v) => v,
            None => {
                return Err(TokenError::Overflow.to_program_error());
            },
        };

        let mut packed_destination: Vec<u8> = Vec::new();
        destination_account.pack_into_slice(&mut packed_destination);
        set_account_data(accounts, 1, packed_destination);
        let mut packed_mint: Vec<u8> = Vec::new();
        mint.pack_into_slice(&mut packed_mint);
        set_account_data(accounts, 0, packed_mint);
        Ok(())
    }

    /// Processes a `Burn` instruction.
    pub fn process_burn(
        program_id: &Pubkey,
        accounts: &mut Vec<AccountInfo>,
        amount: u64,
        expected_decimals: Option<u8>,
    ) -> (r: Result<(), ProgramError>)
        ensures
            match spec_burn(program_id@, accounts_view(old(accounts)@), amount, expected_decimals) {
                Ok(s) => r is Ok && accounts_view(final(accounts)@) == s,
                Err(e) => r == Err::<(), ProgramError>(e) && final(accounts)@ == old(accounts)@,
            },
    {
        if accounts.len() < 3 {
            return Err(ProgramError::NotEnoughAccountKeys);
        }

        let mut source_account = match Account::unpack(accounts[0].data.as_slice()) {
            Ok(a) => a,
            Err(e) => {
                return Err(e);
            },
        };
        let mut mint = match Mint::unpack(accounts[1].data.as_slice()) {
            Ok(m) => m,
            Err(e) => {
                return Err(e);
            },
        };

        if source_account.is_frozen() {
            return Err(TokenError::AccountFrozen.to_program_error());
        }
        if source_account.amount < amount {
            return Err(TokenError::InsufficientFunds.to_program_error());
        }
        if !Self::cmp_pubkeys(&accounts[1].key, &source_account.mint) {
            return Err(TokenError::MintMismatch.to_program_error());
        }

        match expected_decimals {
            Some(d) => {
                if d != mint.decimals {
                    return Err(TokenError::MintDecimalsMismatch.to_program_error());
                }
            },
            None => (),
        };

        if amount == 0 {
            match Self::check_account_owner(program_id, &accounts[0]) {
                Ok(u) => (),
                Err(e) => {
                    return Err(e);
                },
            };
            match Self::check_account_owner(program_id, &accounts[1]) {
                Ok(u) => (),
                Err(e) => {
                    return Err(e);
                },
            };
        }

        source_account.amount = source_account.amount - amount;
        mint.supply = match mint.supply.checked_sub(amount) {
            Some(v) => v,
            None => {
                return Err(TokenError::Overflow.to_program_error());
            },
        };

        let mut packed_source: Vec<u8> = Vec::new();
        source_account.pack_into_slice(&mut packed_source);
        set_account_data(accounts, 0, packed_source);
        let mut packed_mint: Vec<u8> = Vec::new();
        mint.pack_into_slice(&mut packed_mint);
        set_account_data(accounts, 1, packed_mint);
        Ok(())
    }

    /// Processes a `CloseAccount` instruction.
    pub fn process_close_account(program_id: &Pubkey, accounts: &mut Vec<AccountInfo>) -> (r:
        Result<(), ProgramError>)
        ensures
            match spec_close_account(accounts_view(old(accounts)@)) {
                Ok(s) => r is Ok && accounts_view(final(accounts)@) == s,
                Err(e) => r == Err::<(), ProgramError>(e) && final(accounts)@ == old(accounts)@,
            },
    {
        if accounts.len() < 3 {
            return Err(ProgramError::NotEnoughAccountKeys);
        }
        if Self::cmp_pubkeys(&accounts[0].key, &accounts[1].key) {
            return Err(ProgramError::InvalidAccountData);
        }
        let source_account = match Account::unpack(accounts[0].data.as_slice()) {
            Ok(a) => a,
            Err(e) => {
                return Err(e);
            },
        };
        delete_account(accounts, 0);
        Ok(())
    }

    /// Processes a `FreezeAccount` or `ThawAccount` instruction.
    pub fn process_toggle_freeze_account(
        program_id: &Pubkey,
        accounts: &mut Vec<AccountInfo>,
        freeze: bool,
    ) -> (r: Result<(), ProgramError>)
        ensures
            match spec_toggle_freeze_account(program_id@, accounts_view(old(accounts)@), freeze) {
                Ok(s) => r is Ok && accounts_view(final(accounts)@) == s,
                Err(e) => r == Err::<(), ProgramError>(e) && final(accounts)@ == old(accounts)@,
            },
    {
        if accounts.len() < 3 {
            return Err(ProgramError::NotEnoughAccountKeys);
        }
        let mut source_account = match Account::unpack(accounts[0].data.as_slice()) {
            Ok(a) => a,
            Err(e) => {
                return Err(e);
            },
        };
        if freeze && source_account.is_frozen() || !freeze && !source_account.is_frozen() {
            return Err(TokenError::InvalidState.to_program_error());
        }
        if !Self::cmp_pubkeys(&accounts[1].key, &source_account.mint) {
            return Err(TokenError::MintMismatch.to_program_error());
        }

        let mint = match Mint::unpack(accounts[1].data.as_slice()) {
            Ok(m) => m,
            Err(e) => {
                return Err(e);
            },
        };
        {
            let signers = vstd::slice::slice_subrange(accounts.as_slice(), 3, accounts.len());
            proof {
                assert(accounts_view(signers@) =~= accounts_view(accounts@).skip(3));
            }
            match &mint.freeze_authority {
                Some(authority) => {
                    match Self::validate_owner(program_id, authority, &accounts[2], signers) {
                        Ok(u) => (),
                        Err(e) => {
                            return Err(e);
                        },
                    }
                },
                None => {
                    return Err(TokenError::MintCannotFreeze.to_program_error());
                },
            };
        }

        source_account.state = if freeze {
            AccountState::Frozen
        } else {
            AccountState::Initialized
        };

        let mut packed_source: Vec<u8> = Vec::new();
        source_account.pack_into_slice(&mut packed_source);
        set_account_data(accounts, 0, packed_source);
        Ok(())
    }

    /// Processes a `SetAuthority` instruction.
    pub fn process_set_authority(
        program_id: &Pubkey,
        accounts: &mut Vec<AccountInfo>,
        authority_type: AuthorityType,
        new_authority: Option<Pubkey>,
    ) -> (r: Result<(), ProgramError>)
        ensures
            match spec_set_authority(
                program_id@,
                accounts_view(old(accounts)@),
                authority_type,
                spec_key_opt(new_authority),
            ) {
                Ok(s) => r is Ok && accounts_view(final(accounts)@) == s,
                Err(e) => r == Err::<(), ProgramError>(e) && final(accounts)@ == old(accounts)@,
            },
    {
        if accounts.len() < 2 {
            return Err(ProgramError::NotEnoughAccountKeys);
        }

        if accounts[0].data.len() == ACCOUNT_LEN {
            let mut account = match Account::unpack(accounts[0].data.as_slice()) {
                Ok(a) => a,
                Err(e) => {
                    return Err(e);
                },
            };
            if account.is_frozen() {
                return Err(TokenError::AccountFrozen.to_program_error());
            }
            {
                let signers = vstd::slice::slice_subrange(accounts.as_slice(), 2, accounts.len());
                proof {
                    assert(accounts_view(signers@) =~= accounts_view(accounts@).skip(2));
                }
                match authority_type {
                    AuthorityType::AccountOwner => {
                        match Self::validate_owner(
                            program_id,
                            &account.owner,
                            &accounts[1],
                            signers,
                        ) {
                            Ok(u) => (),
                            Err(e) => {
                                return Err(e);
                            },
                        };
                        match new_authority {
                            Some(authority) => {
                                account.owner = authority;
                            },
                            None => {
                                return Err(TokenError::InvalidInstruction.to_program_error());
                            },
                        };
                        account.delegate = None;
                        account.delegated_amount = 0;
                    },
                    AuthorityType::CloseAccount => {
                        let authority = match &account.close_authority {
                            Some(a) => *a,
                            None => account.owner,
                        };
                        match Self::validate_owner(program_id, &authority, &accounts[1], signers) {
                            Ok(u) => (),
                            Err(e) => {
                                return Err(e);
                            },
                        };
                        account.close_authority = new_authority;
                    },
                    _ => {
                        return Err(TokenError::AuthorityTypeNotSupported.to_program_error());
                    },
                }
            }
            let mut packed: Vec<u8> = Vec::new();
            account.pack_into_slice(&mut packed);
            set_account_data(accounts, 0, packed);
            Ok(())
        } else if accounts[0].data.len() == MINT_LEN {
            let mut mint = match Mint::unpack(accounts[0].data.as_slice()) {
                Ok(m) => m,
                Err(e) => {
                    return Err(e);
                },
            };
            {
                let signers = vstd::slice::slice_subrange(accounts.as_slice(), 2, accounts.len());
                proof {
                    assert(accounts_view(signers@) =~= accounts_view(accounts@).skip(2));
                }
                match authority_type {
                    AuthorityType::MintTokens => {
                        // Once a mint's supply is fixed, it cannot be undone
                        // by setting a new mint authority.
                        let mint_authority = match &mint.mint_authority {
                            Some(a) => *a,
                            None => {
                                return Err(TokenError::FixedSupply.to_program_error());
                            },
                        };
                        match Self::validate_owner(
                            program_id,
                            &mint_authority,
                            &accounts[1],
                            signers,
                        ) {
                            Ok(u) => (),
                            Err(e) => {
                                return Err(e);
                            },
                        };
                        mint.mint_authority = new_authority;
                    },
                    AuthorityType::FreezeAccount => {
                        // Once a mint's freeze authority is disabled, it
                        // cannot be re-enabled by setting a new one.
                        let freeze_authority = match &mint.freeze_authority {
                            Some(a) => *a,
                            None => {
                                return Err(TokenError::MintCannotFreeze.to_program_error());
                            },
                        };
                        match Self::validate_owner(
                            program_id,
                            &freeze_authority,
                            &accounts[1],
                            signers,
                        ) {
                            Ok(u) => (),
                            Err(e) => {
                                return Err(e);
                            },
                        };
                        mint.freeze_authority = new_authority;
                    },
                    _ => {
                        return Err(TokenError::AuthorityTypeNotSupported.to_program_error());
                    },
                }
            }
            let mut packed: Vec<u8> = Vec::new();
            mint.pack_into_slice(&mut packed);
            set_account_data(accounts, 0, packed);
            Ok(())
        } else {
            Err(ProgramError::InvalidArgument)
        }
    }

    /// Processes a `GetAccountDataSize` instruction, returning the bytes
    /// that report a holding record's size.
    pub fn process_get_account_data_size(
        program_id: &Pubkey,
        accounts: &Vec<AccountInfo>,
    ) -> (r: Result<Vec<u8>, ProgramError>)
        ensures
            match spec_get_account_data_size(program_id@, accounts_view(accounts@)) {
                Ok(bytes) => r is Ok && r->Ok_0@ == bytes,
                Err(e) => r == Err::<Vec<u8>, ProgramError>(e),
            },
    {
        if accounts.len() < 1 {
            return Err(ProgramError::NotEnoughAccountKeys);
        }
        // Make sure the mint is valid.
        match Self::check_account_owner(program_id, &accounts[0]) {
            Ok(u) => (),
            Err(e) => {
                return Err(e);
            },
        };
        match Mint::unpack(accounts[0].data.as_slice()) {
            Ok(m) => (),
            Err(e) => {
                return Err(TokenError::InvalidMint.to_program_error());
            },
        };
        let mut out: Vec<u8> = Vec::new();
        crate::codec::push_u64_le(&mut out, ACCOUNT_LEN as u64);
        proof {
            assert(out@ =~= vstd::bytes::spec_u64_to_le_bytes(165));
        }
        Ok(out)
    }

    /// Processes an `InitializeImmutableOwner` instruction, which is
    /// accepted on a fresh holding record and changes nothing.
    pub fn process_initialize_immutable_owner(accounts: &Vec<AccountInfo>) -> (r: Result<
        (),
        ProgramError,
    >)
        ensures
            r == spec_initialize_immutable_owner(accounts_view(accounts@)),
    {
        if accounts.len() < 1 {
            return Err(ProgramError::NotEnoughAccountKeys);
        }
        let account = match Account::unpack_unchecked(accounts[0].data.as_slice()) {
            Ok(a) => a,
            Err(e) => {
                return Err(e);
            },
        };
        if account.is_initialized() {
            return Err(TokenError::AlreadyInUse.to_program_error());
        }
        Ok(())
    }

    /// Processes one decoded ledger instruction against the accounts,
    /// returning the bytes the instruction reports back (empty for the
    /// state-changing ones).  On any error no account has changed.
    pub fn process(
        program_id: &Pubkey,
        accounts: &mut Vec<AccountInfo>,
        instruction: TokenInstruction,
    ) -> (r: Result<Vec<u8>, ProgramError>)
        ensures
            match spec_process(program_id@, accounts_view(old(accounts)@), instruction) {
                Ok(outcome) => r is Ok && accounts_view(final(accounts)@) == outcome.0
                    && r->Ok_0@ == outcome.1,
                Err(e) => r == Err::<Vec<u8>, ProgramError>(e) && final(accounts)@ == old(
                    accounts,
                )@,
            },
    {
        match instruction {
            TokenInstruction::InitializeMint { decimals, mint_authority, freeze_authority } => {
                match Self::process_initialize_mint(
                    accounts,
                    decimals,
                    mint_authority,
                    freeze_authority,
                ) {
                    Ok(u) => Ok(Vec::new()),
                    Err(e) => Err(e),
                }
            },
            TokenInstruction::InitializeMint2 { decimals, mint_authority, freeze_authority } => {
                match Self::process_initialize_mint2(
                    accounts,
                    decimals,
                    mint_authority,
                    freeze_authority,
                ) {
                    Ok(u) => Ok(Vec::new()),
                    Err(e) => Err(e),
                }
            },
            TokenInstruction::InitializeAccount => {
                match Self::process_initialize_account(program_id, accounts) {
                    Ok(u) => Ok(Vec::new()),
                    Err(e) => Err(e),
                }
            },
            TokenInstruction::InitializeAccount2 { owner } => {
                match Self::process_initialize_account2(program_id, accounts, owner) {
                    Ok(u) => Ok(Vec::new()),
                    Err(e) => Err(e),
                }
            },
            TokenInstruction::InitializeAccount3 { owner } => {
                match Self::process_initialize_account3(program_id, accounts, owner) {
                    Ok(u) => Ok(Vec::new()),
                    Err(e) => Err(e),
                }
            },
            TokenInstruction::InitializeMultisig { m } => {
                match Self::process_initialize_multisig(accounts, m) {
                    Ok(u) => Ok(Vec::new()),
                    Err(e) => Err(e),
                }
            },
            TokenInstruction::Transfer { amount } => {
                match Self::process_transfer(program_id, accounts, amount, None) {
                    Ok(u) => Ok(Vec::new()),
                    Err(e) => Err(e),
                }
            },
            TokenInstruction::Approve { amount } => {
                match Self::process_approve(program_id, accounts, amount, None) {
                    Ok(u) => Ok(Vec::new()),
                    Err(e) => Err(e),
                }
            },
            TokenInstruction::Revoke => {
                match Self::process_revoke(program_id, accounts) {
                    Ok(u) => Ok(Vec::new()),
                    Err(e) => Err(e),
                }
            },
            TokenInstruction::SetAuthority { authority_type, new_authority } => {
                match Self::process_set_authority(
                    program_id,
                    accounts,
                    authority_type,
                    new_authority,
                ) {
                    Ok(u) => Ok(Vec::new()),
                    Err(e) => Err(e),
                }
            },
            TokenInstruction::MintTo { amount } => {
                match Self::process_mint_to(program_id, accounts, amount, None) {
                    Ok(u) => Ok(Vec::new()),
                    Err(e) => Err(e),
                }
            },
            TokenInstruction::Burn { amount } => {
                match Self::process_burn(program_id, accounts, amount, None) {
                    Ok(u) => Ok(Vec::new()),
                    Err(e) => Err(e),
                }
            },
            TokenInstruction::CloseAccount => {
                match Self::process_close_account(program_id, accounts) {
                    Ok(u) => Ok(Vec::new()),
                    Err(e) => Err(e),
                }
            },
            TokenInstruction::FreezeAccount => {
                match Self::process_toggle_freeze_account(program_id, accounts, true) {
                    Ok(u) => Ok(Vec::new()),
                    Err(e) => Err(e),
                }
            },
            TokenInstruction::ThawAccount => {
                match Self::process_toggle_freeze_account(program_id, accounts, false) {
                    Ok(u) => Ok(Vec::new()),
                    Err(e) => Err(e),
                }
            },
            TokenInstruction::TransferChecked { amount, decimals } => {
                match Self::process_transfer(program_id, accounts, amount, Some(decimals)) {
                    Ok(u) => Ok(Vec::new()),
                    Err(e) => Err(e),
                }
            },
            TokenInstruction::ApproveChecked { amount, decimals } => {
                match Self::process_approve(program_id, accounts, amount, Some(decimals)) {
                    Ok(u) => Ok(Vec::new()),
                    Err(e) => Err(e),
                }
            },
            TokenInstruction::MintToChecked { amount, decimals } => {
                match Self::process_mint_to(program_id, accounts, amount, Some(decimals)) {
                    Ok(u) => Ok(Vec::new()),
                    Err(e) => Err(e),
                }
            },
            TokenInstruction::BurnChecked { amount, decimals } => {
                match Self::process_burn(program_id, accounts, amount, Some(decimals)) {
                    Ok(u) => Ok(Vec::new()),
                    Err(e) => Err(e),
                }
            },
            TokenInstruction::GetAccountDataSize => {
                Self::process_get_account_data_size(program_id, accounts)
            },
            TokenInstruction::InitializeImmutableOwner => {
                match Self::process_initialize_immutable_owner(accounts) {
                    Ok(u) => Ok(Vec::new()),
                    Err(e) => Err(e),
                }
            },
            TokenInstruction::AmountToUiAmount { amount } => {
                Self::process_amount_to_ui_amount(program_id, accounts, amount)
            },
            TokenInstruction::UiAmountToAmount { ui_amount } => {
                Self::process_ui_amount_to_amount(program_id, accounts, ui_amount.as_slice())
            },
        }
    }

    /// Processes an `AmountToUiAmount` instruction, returning the bytes of
    /// the rendered amount.
    pub fn process_amount_to_ui_amount(
        program_id: &Pubkey,
        accounts: &Vec<AccountInfo>,
        amount: u64,
    ) -> (r: Result<Vec<u8>, ProgramError>)
        ensures
            match spec_amount_to_ui_amount(program_id@, accounts_view(accounts@), amount) {
                Ok(bytes) => r is Ok && r->Ok_0@ == bytes,
                Err(e) => r == Err::<Vec<u8>, ProgramError>(e),
            },
    {
        if accounts.len() < 1 {
            return Err(ProgramError::NotEnoughAccountKeys);
        }
        match Self::check_account_owner(program_id, &accounts[0]) {
            Ok(u) => (),
            Err(e) => {
                return Err(e);
            },
        };
        let mint = match Mint::unpack(accounts[0].data.as_slice()) {
            Ok(m) => m,
            Err(e) => {
                return Err(TokenError::InvalidMint.to_program_error());
            },
        };
        Ok(crate::token::uiamount::amount_to_ui_amount_bytes(amount, mint.decimals))
    }

    /// Processes a `UiAmountToAmount` instruction, returning the raw
    /// amount's little-endian bytes.
    pub fn process_ui_amount_to_amount(
        program_id: &Pubkey,
        accounts: &Vec<AccountInfo>,
        ui_amount: &[u8],
    ) -> (r: Result<Vec<u8>, ProgramError>)
        ensures
            match spec_ui_amount_to_amount(program_id@, accounts_view(accounts@), ui_amount@) {
                Ok(bytes) => r is Ok && r->Ok_0@ == bytes,
                Err(e) => r == Err::<Vec<u8>, ProgramError>(e),
            },
    {
        if accounts.len() < 1 {
            return Err(ProgramError::NotEnoughAccountKeys);
        }
        match Self::check_account_owner(program_id, &accounts[0]) {
            Ok(u) => (),
            Err(e) => {
                return Err(e);
            },
        };
        let mint = match Mint::unpack(accounts[0].data.as_slice()) {
            Ok(m) => m,
            Err(e) => {
                return Err(TokenError::InvalidMint.to_program_error());
            },
        };
        let amount = match crate::token::uiamount::try_ui_amount_into_amount(
            ui_amount,
            mint.decimals,
        ) {
            Ok(v) => v,
            Err(e) => {
                return Err(e);
            },
        };
        let mut out: Vec<u8> = Vec::new();
        crate::codec::push_u64_le(&mut out, amount);
        proof {
            assert(out@ =~= vstd::bytes::spec_u64_to_le_bytes(amount));
        }
        Ok(out)
    }

    /// Checks two identifiers for equality.
    pub fn cmp_pubkeys(a: &Pubkey, b: &Pubkey) -> (r: bool)
        ensures
            r == (a@ == b@),
    {
        a == b
    }

    /// Checks that the account is owned by the expected program.
    pub fn check_account_owner(program_id: &Pubkey, account_info: &AccountInfo) -> (r: Result<
        (),
        ProgramError,
    >)
        ensures
            r == if account_info@.owner == program_id@ {
                Ok::<(), ProgramError>(())
            } else {
                Err::<(), ProgramError>(ProgramError::IncorrectProgramId)
            },
    {
        if !Self::cmp_pubkeys(program_id, &account_info.owner) {
            Err(ProgramError::IncorrectProgramId)
        } else {
            Ok(())
        }
    }

    /// Validates that the expected owner authorized this instruction,
    /// directly or through a multisignature record.
    #[verifier::loop_isolation(false)]
    pub fn validate_owner(
        program_id: &Pubkey,
        expected_owner: &Pubkey,
        owner_account_info: &AccountInfo,
        signers: &[AccountInfo],
    ) -> (r: Result<(), ProgramError>)
        ensures
            r == spec_validate_owner(
                program_id@,
                expected_owner@,
                owner_account_info@,
                accounts_view(signers@),
            ),
    {
        if !Self::cmp_pubkeys(expected_owner, &owner_account_info.key) {
            return Err(TokenError::OwnerMismatch.to_program_error());
        }
        if Self::cmp_pubkeys(program_id, &owner_account_info.owner)
            && owner_account_info.data.len() == MULTISIG_LEN {
            let multisig = match Multisig::unpack(owner_account_info.data.as_slice()) {
                Ok(m) => m,
                Err(e) => {
                    return Err(e);
                },
            };
            let n = multisig.n as usize;
            if n > 11 {
                // `n` is a byte and the record holds eleven keys, so this
                // cannot be reached; it keeps the index arithmetic simple.
                return Err(ProgramError::InvalidAccountData);
            }
            let ghost keys = multisig@.signers.take(multisig.n as int);
            let mut matched: [bool; 11] = [false; 11];
            let mut num_signers: u128 = 0;
            let mut i: usize = 0;
            let ghost total = spec_sign_fold(
                accounts_view(signers@),
                keys,
                Seq::new(keys.len(), |k: int| false),
                0,
                0,
            );
            proof {
                assert(matched@.take(n as int) =~= Seq::new(keys.len(), |k: int| false));
            }
            while i < signers.len()
                invariant
                    n == multisig.n as int,
                    n <= 11,
                    keys == multisig@.signers.take(multisig.n as int),
                    0 <= i <= signers@.len(),
                    num_signers <= 11 * (i as int),
                    total == spec_sign_fold(
                        accounts_view(signers@),
                        keys,
                        matched@.take(n as int),
                        num_signers as int,
                        i as int,
                    ),
                decreases signers@.len() - i,
            {
                let signer = &signers[i];
                let ghost entry_matched = matched@.take(n as int);
                let ghost entry_num = num_signers as int;
                let mut position: usize = 0;
                proof {
                    assert(accounts_view(signers@)[i as int] == signer@);
                }
                while position < n
                    invariant
                        n == multisig.n as int,
                        n <= 11,
                        keys == multisig@.signers.take(multisig.n as int),
                        0 <= position <= n,
                        0 <= i < signers@.len(),
                        num_signers <= 11 * (i as int) + position as int,
                        signer@ == accounts_view(signers@)[i as int],
                        entry_matched.len() == keys.len(),
                        total == spec_sign_fold(
                            accounts_view(signers@),
                            keys,
                            entry_matched,
                            entry_num,
                            i as int,
                        ),
                        spec_sign_positions(
                            signer@,
                            keys,
                            entry_matched,
                            entry_num,
                            0,
                        ) == spec_sign_positions(
                            signer@,
                            keys,
                            matched@.take(n as int),
                            num_signers as int,
                            position as int,
                        ),
                    decreases n - position,
                {
                    proof {
                        assert(keys[position as int] == multisig.signers@[position as int]@);
                        assert(matched@.take(n as int)[position as int] == matched@[position as int]);
                    }
                    if Self::cmp_pubkeys(&multisig.signers[position], &signer.key)
                        && !matched[position] {
                        if !signer.is_signer {
                            return Err(ProgramError::MissingRequiredSignature);
                        }
                        let ghost prev_matched = matched@.take(n as int);
                        matched[position] = true;
                        num_signers = num_signers + 1;
                        proof {
                            assert(matched@.take(n as int) =~= prev_matched.update(
                                position as int,
                                true,
                            ));
                        }
                    }
                    position = position + 1;
                }
                i = i + 1;
            }
            if num_signers < multisig.m as u128 {
                return Err(ProgramError::MissingRequiredSignature);
            }
            return Ok(());
        } else if !owner_account_info.is_signer {
            return Err(ProgramError::MissingRequiredSignature);
        }
        Ok(())
    }
}

} // verus!
