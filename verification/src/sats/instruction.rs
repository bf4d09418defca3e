//! Instructions understood by the vault program, and their strict,
//! length-prefixed decoding.

use vstd::prelude::*;

use crate::codec::{read_u32_le, read_u64_le};
use crate::program_error::ProgramError;
use crate::sats::state::{OutPointV, SerializableOutPoint};

verus! {

broadcast use vstd::array::group_array_axioms;

/// Instructions supported by the vault program.
#[derive(Debug)]
pub enum SatsInstruction {
    /// Initialize a new vault (tag 0).
    InitializeVault,
    /// Record a deposited output and credit the vault (tag 1).
    DepositUtxo {
        /// The deposited output's location.
        outpoint: SerializableOutPoint,
        /// Amount of sats.
        amount: u64,
        /// The output's locking script.
        script_pubkey: Vec<u8>,
    },
    /// Debit the vault for a withdrawal (tag 2).
    WithdrawUtxo {
        /// Amount of sats to withdraw.
        amount: u64,
        /// Receiving address, as bytes.
        bitcoin_address: Vec<u8>,
    },
}

/// The mathematical image of a decoded instruction.
pub ghost enum SatsInstructionV {
    InitializeVault,
    DepositUtxo { outpoint: OutPointV, amount: u64, script_pubkey: Seq<u8> },
    WithdrawUtxo { amount: u64, bitcoin_address: Seq<u8> },
}

impl View for SatsInstruction {
    type V = SatsInstructionV;

    open spec fn view(&self) -> SatsInstructionV {
        match self {
            SatsInstruction::InitializeVault => SatsInstructionV::InitializeVault,
            SatsInstruction::DepositUtxo { outpoint, amount, script_pubkey } => (SatsInstructionV::DepositUtxo {
                outpoint: outpoint@,
                amount: *amount,
                script_pubkey: script_pubkey@,
            }),
            SatsInstruction::WithdrawUtxo { amount, bitcoin_address } => (SatsInstructionV::WithdrawUtxo {
                amount: *amount,
                bitcoin_address: bitcoin_address@,
            }),
        }
    }
}

/// Strict decoding of an instruction buffer: a tag byte, fixed-width
/// little-endian fields, length-prefixed byte strings, and no trailing
/// bytes.
pub open spec fn spec_unpack_sats_instruction(s: Seq<u8>) -> Result<
    SatsInstructionV,
    ProgramError,
> {
    if s.len() < 1 {
        Err(ProgramError::InvalidInstructionData)
    } else if s[0] == 0 {
        if s.len() == 1 {
            Ok(SatsInstructionV::InitializeVault)
        } else {
            Err(ProgramError::InvalidInstructionData)
        }
    } else if s[0] == 1 {
        if s.len() < 49 {
            Err(ProgramError::InvalidInstructionData)
        } else {
            let script_len = vstd::bytes::spec_u32_from_le_bytes(s.subrange(45, 49)) as int;
            if s.len() != 49 + script_len {
                Err(ProgramError::InvalidInstructionData)
            } else {
                Ok(
                    SatsInstructionV::DepositUtxo {
                        outpoint: OutPointV {
                            txid: s.subrange(1, 33),
                            vout: vstd::bytes::spec_u32_from_le_bytes(s.subrange(33, 37)),
                        },
                        amount: vstd::bytes::spec_u64_from_le_bytes(s.subrange(37, 45)),
                        script_pubkey: s.subrange(49, 49 + script_len),
                    },
                )
            }
        }
    } else if s[0] == 2 {
        if s.len() < 13 {
            Err(ProgramError::InvalidInstructionData)
        } else {
            let address_len = vstd::bytes::spec_u32_from_le_bytes(s.subrange(9, 13)) as int;
            if s.len() != 13 + address_len {
                Err(ProgramError::InvalidInstructionData)
            } else {
                Ok(
                    SatsInstructionV::WithdrawUtxo {
                        amount: vstd::bytes::spec_u64_from_le_bytes(s.subrange(1, 9)),
                        bitcoin_address: s.subrange(13, 13 + address_len),
                    },
                )
            }
        }
    } else {
        Err(ProgramError::InvalidInstructionData)
    }
}

impl SatsInstruction {
    /// Decodes an instruction buffer, rejecting unknown tags, short
    /// payloads, and trailing bytes.
    pub fn unpack(input: &[u8]) -> (r: Result<SatsInstruction, ProgramError>)
        ensures
            match spec_unpack_sats_instruction(input@) {
                Ok(v) => r is Ok && r->Ok_0@ == v,
                Err(e) => r == Err::<SatsInstruction, ProgramError>(e),
            },
    {
        let n = input.len();
        if n < 1 {
            return Err(ProgramError::InvalidInstructionData);
        }
        let tag = input[0];
        if tag == 0 {
            if n == 1 {
                Ok(SatsInstruction::InitializeVault)
            } else {
                Err(ProgramError::InvalidInstructionData)
            }
        } else if tag == 1 {
            if n < 49 {
                return Err(ProgramError::InvalidInstructionData);
            }
            let script_len = read_u32_le(input, 45) as usize;
            if n < 49 || n - 49 != script_len {
                return Err(ProgramError::InvalidInstructionData);
            }
            let mut txid: [u8; 32] = [0u8; 32];
            let mut i: usize = 0;
            while i < 32
                invariant
                    input@.len() >= 49,
                    0 <= i <= 32,
                    forall|k: int| 0 <= k < i ==> txid@[k] == input@[1 + k],
                decreases 32 - i,
            {
                txid[i] = input[1 + i];
                i += 1;
            }
            proof {
                assert(txid@ =~= input@.subrange(1, 33));
            }
            let script = vstd::slice::slice_to_vec(
                vstd::slice::slice_subrange(input, 49, n),
            );
            proof {
                assert(script@ =~= input@.subrange(49, 49 + script_len as int));
            }
            Ok(
                SatsInstruction::DepositUtxo {
                    outpoint: SerializableOutPoint { txid, vout: read_u32_le(input, 33) },
                    amount: read_u64_le(input, 37),
                    script_pubkey: script,
                },
            )
        } else if tag == 2 {
            if n < 13 {
                return Err(ProgramError::InvalidInstructionData);
            }
            let address_len = read_u32_le(input, 9) as usize;
            if n - 13 != address_len {
                return Err(ProgramError::InvalidInstructionData);
            }
            let address = vstd::slice::slice_to_vec(
                vstd::slice::slice_subrange(input, 13, n),
            );
            proof {
                assert(address@ =~= input@.subrange(13, 13 + address_len as int));
            }
            Ok(
                SatsInstruction::WithdrawUtxo {
                    amount: read_u64_le(input, 1),
                    bitcoin_address: address,
                },
            )
        } else {
            Err(ProgramError::InvalidInstructionData)
        }
    }
}

} // verus!
