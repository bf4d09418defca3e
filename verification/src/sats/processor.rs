//! The vault program's processor.
//!
//! Each handler validates and computes before it writes, so a failing
//! instruction leaves every account untouched.

use vstd::prelude::*;

use crate::account::{accounts_view, set_account_data, AccountInfo, AccountV};
use crate::program_error::ProgramError;
use crate::pubkey::Pubkey;
use crate::sats::error::SatsError;
use crate::sats::instruction::{spec_unpack_sats_instruction, SatsInstruction, SatsInstructionV};
use crate::sats::state::{
    spec_pack_utxo, spec_pack_vault, spec_unpack_vault_checked, BitcoinUtxo, BitcoinUtxoV,
    SerializableOutPoint, UtxoVault, UtxoVaultV,
};

verus! {

/// Shorthand for the vault program's own errors as `ProgramError`s.
pub open spec fn sats_err(e: SatsError) -> ProgramError {
    e.spec_program_error()
}

/// `InitializeVault`: the signing authority becomes the vault's manager
/// and the vault starts empty.
pub open spec fn spec_initialize_vault(accounts: Seq<AccountV>) -> Result<
    Seq<AccountV>,
    ProgramError,
> {
    if accounts.len() < 3 {
        Err(ProgramError::NotEnoughAccountKeys)
    } else if !accounts[0].is_signer {
        Err(sats_err(SatsError::InvalidMintAuthority))
    } else {
        Ok(
            accounts.update(
                1,
                (AccountV {
                    data: spec_pack_vault(
                        (UtxoVaultV {
                            authority: accounts[0].key,
                            mint: accounts[2].key,
                            total_amount: 0,
                            utxo_count: 0,
                            is_initialized: true,
                        }),
                    ),
                    ..accounts[1]
                }),
            ),
        )
    }
}

/// `DepositUtxo`: the vault's authority records a locked output and the
/// vault is credited with its amount.  The output's record is written into
/// the prefix of the output account's bytes, which must be long enough.
pub open spec fn spec_deposit_utxo(
    accounts: Seq<AccountV>,
    outpoint: crate::sats::state::OutPointV,
    amount: u64,
    script_pubkey: Seq<u8>,
) -> Result<Seq<AccountV>, ProgramError> {
    if accounts.len() < 5 {
        Err(ProgramError::NotEnoughAccountKeys)
    } else if !accounts[0].is_signer {
        Err(sats_err(SatsError::InvalidMintAuthority))
    } else {
        match spec_unpack_vault_checked(accounts[1].data) {
            Err(e) => Err(e),
            Ok(vault) => if vault.authority != accounts[0].key {
                Err(sats_err(SatsError::InvalidMintAuthority))
            } else if script_pubkey.len() > u32::MAX {
                Err(ProgramError::InvalidInstructionData)
            } else {
                let utxo_bytes = spec_pack_utxo(
                    (BitcoinUtxoV { outpoint, amount, script_pubkey, is_spent: false }),
                );
                if accounts[2].data.len() < utxo_bytes.len() {
                    Err(ProgramError::InvalidAccountData)
                } else if vault.total_amount + amount > u64::MAX {
                    Err(sats_err(SatsError::InvalidUtxo))
                } else if vault.utxo_count + 1 > u32::MAX {
                    Err(sats_err(SatsError::InvalidUtxo))
                } else {
                    Ok(
                        accounts.update(
                            2,
                            (AccountV {
                                data: utxo_bytes + accounts[2].data.skip(
                                    utxo_bytes.len() as int,
                                ),
                                ..accounts[2]
                            }),
                        ).update(
                            1,
                            (AccountV {
                                data: spec_pack_vault(
                                    (UtxoVaultV {
                                        total_amount: (vault.total_amount + amount) as u64,
                                        utxo_count: (vault.utxo_count + 1) as u32,
                                        ..vault
                                    }),
                                ),
                                ..accounts[1]
                            }),
                        ),
                    )
                }
            },
        }
    }
}

/// `WithdrawUtxo`: the signing owner debits the vault, which must hold at
/// least the requested amount.
pub open spec fn spec_withdraw_utxo(accounts: Seq<AccountV>, amount: u64) -> Result<
    Seq<AccountV>,
    ProgramError,
> {
    if accounts.len() < 4 {
        Err(ProgramError::NotEnoughAccountKeys)
    } else if !accounts[0].is_signer {
        Err(sats_err(SatsError::InvalidBurnAuthority))
    } else {
        match spec_unpack_vault_checked(accounts[1].data) {
            Err(e) => Err(e),
            Ok(vault) => if vault.total_amount < amount {
                Err(sats_err(SatsError::InsufficientBalance))
            } else {
                Ok(
                    accounts.update(
                        1,
                        (AccountV {
                            data: spec_pack_vault(
                                (UtxoVaultV {
                                    total_amount: (vault.total_amount - amount) as u64,
                                    ..vault
                                }),
                            ),
                            ..accounts[1]
                        }),
                    ),
                )
            },
        }
    }
}

/// One dispatched vault instruction.
pub open spec fn spec_process(accounts: Seq<AccountV>, instruction: SatsInstructionV) -> Result<
    Seq<AccountV>,
    ProgramError,
> {
    match instruction {
        SatsInstructionV::InitializeVault => spec_initialize_vault(accounts),
        SatsInstructionV::DepositUtxo { outpoint, amount, script_pubkey } => spec_deposit_utxo(
            accounts,
            outpoint,
            amount,
            script_pubkey,
        ),
        SatsInstructionV::WithdrawUtxo { amount, bitcoin_address } => spec_withdraw_utxo(
            accounts,
            amount,
        ),
    }
}

/// Program processor.
pub struct Processor;

impl Processor {
    fn process_initialize_vault(accounts: &mut Vec<AccountInfo>, program_id: &Pubkey) -> (r:
        Result<(), ProgramError>)
        ensures
            match spec_initialize_vault(accounts_view(old(accounts)@)) {
                Ok(s) => r is Ok && accounts_view(final(accounts)@) == s,
                Err(e) => r == Err::<(), ProgramError>(e) && final(accounts)@ == old(accounts)@,
            },
    {
        if accounts.len() < 3 {
            return Err(ProgramError::NotEnoughAccountKeys);
        }
        if !accounts[0].is_signer {
            return Err(SatsError::InvalidMintAuthority.to_program_error());
        }

        let vault = UtxoVault::new(accounts[0].key, accounts[2].key);
        let mut packed: Vec<u8> = Vec::new();
        vault.pack_into_slice(&mut packed);
        set_account_data(accounts, 1, packed);
        Ok(())
    }

    fn process_deposit_utxo(
        accounts: &mut Vec<AccountInfo>,
        program_id: &Pubkey,
        outpoint: SerializableOutPoint,
        amount: u64,
        script_pubkey: Vec<u8>,
    ) -> (r: Result<(), ProgramError>)
        ensures
            match spec_deposit_utxo(
                accounts_view(old(accounts)@),
                outpoint@,
                amount,
                script_pubkey@,
            ) {
                Ok(s) => r is Ok && accounts_view(final(accounts)@) == s,
                Err(e) => r == Err::<(), ProgramError>(e) && final(accounts)@ == old(accounts)@,
            },
    {
        if accounts.len() < 5 {
            return Err(ProgramError::NotEnoughAccountKeys);
        }
        if !accounts[0].is_signer {
            return Err(SatsError::InvalidMintAuthority.to_program_error());
        }

        let mut vault = match UtxoVault::unpack(accounts[1].data.as_slice()) {
            Ok(v) => v,
            Err(e) => {
                return Err(e);
            },
        };
        if !(vault.authority == accounts[0].key) {
            return Err(SatsError::InvalidMintAuthority.to_program_error());
        }
        if script_pubkey.len() > 4294967295usize {
            // a script this long cannot carry a 32-bit length prefix
            return Err(ProgramError::InvalidInstructionData);
        }

        // Store the output's record in the output account's prefix.
        let utxo = BitcoinUtxo { outpoint, amount, script_pubkey, is_spent: false };
        let mut utxo_bytes: Vec<u8> = Vec::new();
        utxo.pack_into_slice(&mut utxo_bytes);
        if accounts[2].data.len() < utxo_bytes.len() {
            return Err(ProgramError::InvalidAccountData);
        }

        // Update the vault's totals before any account is written.
        let new_total = match vault.total_amount.checked_add(amount) {
            Some(v) => v,
            None => {
                return Err(SatsError::InvalidUtxo.to_program_error());
            },
        };
        let new_count = match vault.utxo_count.checked_add(1) {
            Some(v) => v,
            None => {
                return Err(SatsError::InvalidUtxo.to_program_error());
            },
        };
        vault.total_amount = new_total;
        vault.utxo_count = new_count;

        let tail = vstd::slice::slice_to_vec(
            vstd::slice::slice_subrange(accounts[2].data.as_slice(), utxo_bytes.len(), accounts[2].data.len()),
        );
        let mut new_utxo_data = utxo_bytes;
        let ghost utxo_image = new_utxo_data@;
        crate::codec::push_bytes(&mut new_utxo_data, tail.as_slice());
        proof {
            assert(new_utxo_data@ =~= utxo_image + accounts_view(accounts@)[2].data.skip(
                utxo_image.len() as int,
            ));
        }
        set_account_data(accounts, 2, new_utxo_data);

        let mut packed_vault: Vec<u8> = Vec::new();
        vault.pack_into_slice(&mut packed_vault);
        set_account_data(accounts, 1, packed_vault);
        Ok(())
    }

    fn process_withdraw_utxo(
        accounts: &mut Vec<AccountInfo>,
        program_id: &Pubkey,
        amount: u64,
        bitcoin_address: Vec<u8>,
    ) -> (r: Result<(), ProgramError>)
        ensures
            match spec_withdraw_utxo(accounts_view(old(accounts)@), amount) {
                Ok(s) => r is Ok && accounts_view(final(accounts)@) == s,
                Err(e) => r == Err::<(), ProgramError>(e) && final(accounts)@ == old(accounts)@,
            },
    {
        if accounts.len() < 4 {
            return Err(ProgramError::NotEnoughAccountKeys);
        }
        if !accounts[0].is_signer {
            return Err(SatsError::InvalidBurnAuthority.to_program_error());
        }

        let mut vault = match UtxoVault::unpack(accounts[1].data.as_slice()) {
            Ok(v) => v,
            Err(e) => {
                return Err(e);
            },
        };
        if vault.total_amount < amount {
            return Err(SatsError::InsufficientBalance.to_program_error());
        }

        vault.total_amount = vault.total_amount - amount;
        let mut packed: Vec<u8> = Vec::new();
        vault.pack_into_slice(&mut packed);
        set_account_data(accounts, 1, packed);
        Ok(())
    }

    /// Processes one decoded vault instruction.  On any error no account
    /// has changed.
    pub fn process(
        program_id: &Pubkey,
        accounts: &mut Vec<AccountInfo>,
        instruction: SatsInstruction,
    ) -> (r: Result<(), ProgramError>)
        ensures
            match spec_process(accounts_view(old(accounts)@), instruction@) {
                Ok(s) => r is Ok && accounts_view(final(accounts)@) == s,
                Err(e) => r == Err::<(), ProgramError>(e) && final(accounts)@ == old(accounts)@,
            },
    {
        match instruction {
            SatsInstruction::InitializeVault => Self::process_initialize_vault(
                accounts,
                program_id,
            ),
            SatsInstruction::DepositUtxo { outpoint, amount, script_pubkey } => Self::process_deposit_utxo(
                accounts,
                program_id,
                outpoint,
                amount,
                script_pubkey,
            ),
            SatsInstruction::WithdrawUtxo { amount, bitcoin_address } => Self::process_withdraw_utxo(
                accounts,
                program_id,
                amount,
                bitcoin_address,
            ),
        }
    }
}

/// Decodes and processes one instruction buffer against the accounts.
pub fn process_instruction(
    program_id: &Pubkey,
    accounts: &mut Vec<AccountInfo>,
    instruction_data: &[u8],
) -> (r: Result<(), ProgramError>)
    ensures
        match spec_unpack_sats_instruction(instruction_data@) {
            Err(e) => r == Err::<(), ProgramError>(e) && final(accounts)@ == old(accounts)@,
            Ok(instruction) => match spec_process(accounts_view(old(accounts)@), instruction) {
                Ok(s) => r is Ok && accounts_view(final(accounts)@) == s,
                Err(e) => r == Err::<(), ProgramError>(e) && final(accounts)@ == old(accounts)@,
            },
        },
{
    // Unpack the instruction data.
    let instruction = match SatsInstruction::unpack(instruction_data) {
        Ok(i) => i,
        Err(e) => {
            return Err(e);
        },
    };

    // Process the instruction.
    Processor::process(program_id, accounts, instruction)
}

} // verus!
