//! The associated-token-account program: validates a request to create
//! the canonical holding account of a wallet and mint, and states the
//! account-system effects that creation requires.
//!
//! Deriving the canonical address itself is the runtime's address-hashing
//! service; the processor takes the derived address as an argument and
//! checks it against the account supplied.

use vstd::prelude::*;

use crate::account::{accounts_view, AccountInfo, AccountV};
use crate::codec::read_u32_le;
use crate::program_error::ProgramError;
use crate::pubkey::Pubkey;

verus! {

broadcast use vstd::array::group_array_axioms;

/// The program's own identifier bytes: the ASCII text
/// `associated-token-account00000000`.
pub open spec fn spec_ata_id() -> Seq<u8> {
    seq![
        97u8, 115u8, 115u8, 111u8, 99u8, 105u8, 97u8, 116u8, 101u8, 100u8, 45u8, 116u8, 111u8,
        107u8, 101u8, 110u8, 45u8, 97u8, 99u8, 99u8, 111u8, 117u8, 110u8, 116u8, 48u8, 48u8, 48u8,
        48u8, 48u8, 48u8, 48u8, 48u8,
    ]
}

/// The program's own identifier.
pub fn id() -> (r: Pubkey)
    ensures
        r@ == spec_ata_id(),
{
    let bytes: [u8; 32] = [
        97u8, 115u8, 115u8, 111u8, 99u8, 105u8, 97u8, 116u8, 101u8, 100u8, 45u8, 116u8, 111u8,
        107u8, 101u8, 110u8, 45u8, 97u8, 99u8, 99u8, 111u8, 117u8, 110u8, 116u8, 48u8, 48u8, 48u8,
        48u8, 48u8, 48u8, 48u8, 48u8,
    ];
    proof {
        assert(bytes@ =~= spec_ata_id());
    }
    Pubkey { bytes }
}

/// One account-system step that creating an associated account requires.
#[derive(Clone, Debug)]
pub enum AtaEffect {
    /// Create the account's backing storage from the given transaction
    /// output.
    CreateAccount { txid: Vec<u8>, vout: u32, account: Pubkey },
    /// Zero `length` bytes of the account's storage from `offset`.
    WriteZeros { offset: u32, length: u32, account: Pubkey },
    /// Hand the account to the token program.
    Assign { account: Pubkey, token_program: Pubkey },
    /// Initialize the account as a holding of `mint` owned by `wallet`.
    InitializeAccount { account: Pubkey, mint: Pubkey, wallet: Pubkey },
}

/// The mathematical image of an account-system step.
pub ghost enum AtaEffectV {
    CreateAccount { txid: Seq<u8>, vout: u32, account: Seq<u8> },
    WriteZeros { offset: u32, length: u32, account: Seq<u8> },
    Assign { account: Seq<u8>, token_program: Seq<u8> },
    InitializeAccount { account: Seq<u8>, mint: Seq<u8>, wallet: Seq<u8> },
}

impl View for AtaEffect {
    type V = AtaEffectV;

    open spec fn view(&self) -> AtaEffectV {
        match self {
            AtaEffect::CreateAccount { txid, vout, account } => (AtaEffectV::CreateAccount {
                txid: txid@,
                vout: *vout,
                account: account@,
            }),
            AtaEffect::WriteZeros { offset, length, account } => (AtaEffectV::WriteZeros {
                offset: *offset,
                length: *length,
                account: account@,
            }),
            AtaEffect::Assign { account, token_program } => (AtaEffectV::Assign {
                account: account@,
                token_program: token_program@,
            }),
            AtaEffect::InitializeAccount { account, mint, wallet } => (AtaEffectV::InitializeAccount {
                account: account@,
                mint: mint@,
                wallet: wallet@,
            }),
        }
    }
}

/// The images of a whole effect list.
pub open spec fn ata_effects_view(s: Seq<AtaEffect>) -> Seq<AtaEffectV> {
    s.map_values(|e: AtaEffect| e@)
}

/// Creation of an associated account: the instruction names the
/// transaction output backing the new storage, the derived address must be
/// the account supplied, and the four account-system steps follow.
pub open spec fn spec_process_ata(
    accounts: Seq<AccountV>,
    input: Seq<u8>,
    derived_address: Seq<u8>,
) -> Result<Seq<AtaEffectV>, ProgramError> {
    if accounts.len() < 5 {
        Err(ProgramError::NotEnoughAccountKeys)
    } else if input.len() < 36 {
        Err(ProgramError::InvalidInstructionData)
    } else if derived_address != accounts[0].key {
        Err(ProgramError::InvalidSeeds)
    } else {
        Ok(
            seq![
                (AtaEffectV::CreateAccount {
                    txid: input.subrange(0, 32),
                    vout: vstd::bytes::spec_u32_from_le_bytes(input.subrange(32, 36)),
                    account: accounts[0].key,
                }),
                (AtaEffectV::WriteZeros { offset: 0, length: 165, account: accounts[0].key }),
                (AtaEffectV::Assign { account: accounts[0].key, token_program: accounts[4].key }),
                (AtaEffectV::InitializeAccount {
                    account: accounts[0].key,
                    mint: accounts[2].key,
                    wallet: accounts[1].key,
                }),
            ],
        )
    }
}

/// Validates a creation request against the derived address and returns
/// the account-system steps it requires.
pub fn process_instruction(
    program_id: &Pubkey,
    accounts: &Vec<AccountInfo>,
    input: &[u8],
    derived_address: &Pubkey,
) -> (r: Result<Vec<AtaEffect>, ProgramError>)
    ensures
        match spec_process_ata(accounts_view(accounts@), input@, derived_address@) {
            Ok(effects) => r is Ok && ata_effects_view(r->Ok_0@) == effects,
            Err(e) => r == Err::<Vec<AtaEffect>, ProgramError>(e),
        },
{
    if accounts.len() < 5 {
        return Err(ProgramError::NotEnoughAccountKeys);
    }
    if input.len() < 36 {
        return Err(ProgramError::InvalidInstructionData);
    }
    if !(*derived_address == accounts[0].key) {
        return Err(ProgramError::InvalidSeeds);
    }

    let txid = vstd::slice::slice_to_vec(vstd::slice::slice_subrange(input, 0, 32));
    let vout = read_u32_le(input, 32);

    let mut effects: Vec<AtaEffect> = Vec::new();
    effects.push(AtaEffect::CreateAccount { txid, vout, account: accounts[0].key });
    effects.push(AtaEffect::WriteZeros { offset: 0, length: 165, account: accounts[0].key });
    effects.push(
        AtaEffect::Assign { account: accounts[0].key, token_program: accounts[4].key },
    );
    effects.push(
        AtaEffect::InitializeAccount {
            account: accounts[0].key,
            mint: accounts[2].key,
            wallet: accounts[1].key,
        },
    );
    proof {
        assert(ata_effects_view(effects@) =~= spec_process_ata(
            accounts_view(accounts@),
            input@,
            derived_address@,
        )->Ok_0);
    }
    Ok(effects)
}

} // verus!
