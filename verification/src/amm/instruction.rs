//! Instruction types and their compact byte codec.

use vstd::prelude::*;

use crate::amm::error::AmmError;
use crate::codec::{push_u16_le, push_u64_le, read_u16_le, read_u64_le};
use crate::program_error::ProgramError;

verus! {

/// Instructions supported by the pool program.
///
/// On the wire each variant is one tag byte followed by its little-endian
/// fixed-width fields.
#[derive(Clone, Copy, Debug, PartialEq, Eq, Structural)]
pub enum AmmInstruction {
    /// Initializes a new pool with two tokens (tag 0).
    InitializePool {
        /// Fee numerator; the fee is numerator/denominator.
        fee_numerator: u16,
        /// Fee denominator.
        fee_denominator: u16,
    },
    /// Adds liquidity to the pool (tag 1).
    AddLiquidity {
        /// Amount of token A to add.
        token_a_amount: u64,
        /// Amount of token B to add.
        token_b_amount: u64,
        /// Minimum liquidity shares to mint; prevents excessive slippage.
        min_lp_amount: u64,
    },
    /// Removes liquidity from the pool (tag 2).
    RemoveLiquidity {
        /// Amount of liquidity shares to burn.
        lp_amount: u64,
        /// Minimum token A to receive.
        min_token_a_amount: u64,
        /// Minimum token B to receive.
        min_token_b_amount: u64,
    },
    /// Swaps tokens in the pool (tag 3).
    Swap {
        /// Amount of input tokens to swap.
        amount_in: u64,
        /// Minimum output tokens to receive.
        min_amount_out: u64,
    },
}

/// The error with which malformed instruction buffers are rejected.
pub open spec fn invalid_instruction() -> ProgramError {
    AmmError::InvalidInstruction.spec_program_error()
}

/// The byte image of an instruction: a tag byte and little-endian fields.
pub open spec fn spec_pack_instruction(x: AmmInstruction) -> Seq<u8> {
    match x {
        AmmInstruction::InitializePool { fee_numerator, fee_denominator } => seq![0u8]
            + vstd::bytes::spec_u16_to_le_bytes(fee_numerator) + vstd::bytes::spec_u16_to_le_bytes(
            fee_denominator,
        ),
        AmmInstruction::AddLiquidity { token_a_amount, token_b_amount, min_lp_amount } => seq![1u8]
            + vstd::bytes::spec_u64_to_le_bytes(token_a_amount) + vstd::bytes::spec_u64_to_le_bytes(
            token_b_amount,
        ) + vstd::bytes::spec_u64_to_le_bytes(min_lp_amount),
        AmmInstruction::RemoveLiquidity {
            lp_amount,
            min_token_a_amount,
            min_token_b_amount,
        } => seq![2u8] + vstd::bytes::spec_u64_to_le_bytes(lp_amount)
            + vstd::bytes::spec_u64_to_le_bytes(min_token_a_amount)
            + vstd::bytes::spec_u64_to_le_bytes(min_token_b_amount),
        AmmInstruction::Swap { amount_in, min_amount_out } => seq![3u8]
            + vstd::bytes::spec_u64_to_le_bytes(amount_in) + vstd::bytes::spec_u64_to_le_bytes(
            min_amount_out,
        ),
    }
}

/// Decoding of an instruction buffer.  An unknown tag or a payload too
/// short for its variant is rejected; bytes past the variant's fields are
/// ignored.
pub open spec fn spec_unpack_instruction(s: Seq<u8>) -> Result<AmmInstruction, ProgramError> {
    if s.len() < 1 {
        Err(invalid_instruction())
    } else if s[0] == 0 {
        if s.len() < 5 {
            Err(invalid_instruction())
        } else {
            Ok(
                AmmInstruction::InitializePool {
                    fee_numerator: vstd::bytes::spec_u16_from_le_bytes(s.subrange(1, 3)),
                    fee_denominator: vstd::bytes::spec_u16_from_le_bytes(s.subrange(3, 5)),
                },
            )
        }
    } else if s[0] == 1 {
        if s.len() < 25 {
            Err(invalid_instruction())
        } else {
            Ok(
                AmmInstruction::AddLiquidity {
                    token_a_amount: vstd::bytes::spec_u64_from_le_bytes(s.subrange(1, 9)),
                    token_b_amount: vstd::bytes::spec_u64_from_le_bytes(s.subrange(9, 17)),
                    min_lp_amount: vstd::bytes::spec_u64_from_le_bytes(s.subrange(17, 25)),
                },
            )
        }
    } else if s[0] == 2 {
        if s.len() < 25 {
            Err(invalid_instruction())
        } else {
            Ok(
                AmmInstruction::RemoveLiquidity {
                    lp_amount: vstd::bytes::spec_u64_from_le_bytes(s.subrange(1, 9)),
                    min_token_a_amount: vstd::bytes::spec_u64_from_le_bytes(s.subrange(9, 17)),
                    min_token_b_amount: vstd::bytes::spec_u64_from_le_bytes(s.subrange(17, 25)),
                },
            )
        }
    } else if s[0] == 3 {
        if s.len() < 17 {
            Err(invalid_instruction())
        } else {
            Ok(
                AmmInstruction::Swap {
                    amount_in: vstd::bytes::spec_u64_from_le_bytes(s.subrange(1, 9)),
                    min_amount_out: vstd::bytes::spec_u64_from_le_bytes(s.subrange(9, 17)),
                },
            )
        }
    } else {
        Err(invalid_instruction())
    }
}

impl AmmInstruction {
    /// Unpacks a byte buffer into an instruction.
    pub fn unpack(input: &[u8]) -> (r: Result<AmmInstruction, ProgramError>)
        ensures
            r == spec_unpack_instruction(input@),
    {
        let n = input.len();
        if n < 1 {
            return Err(AmmError::InvalidInstruction.to_program_error());
        }
        let tag = input[0];
        if tag == 0 {
            if n < 5 {
                return Err(AmmError::InvalidInstruction.to_program_error());
            }
            Ok(
                AmmInstruction::InitializePool {
                    fee_numerator: read_u16_le(input, 1),
                    fee_denominator: read_u16_le(input, 3),
                },
            )
        } else if tag == 1 {
            if n < 25 {
                return Err(AmmError::InvalidInstruction.to_program_error());
            }
            Ok(
                AmmInstruction::AddLiquidity {
                    token_a_amount: read_u64_le(input, 1),
                    token_b_amount: read_u64_le(input, 9),
                    min_lp_amount: read_u64_le(input, 17),
                },
            )
        } else if tag == 2 {
            if n < 25 {
                return Err(AmmError::InvalidInstruction.to_program_error());
            }
            Ok(
                AmmInstruction::RemoveLiquidity {
                    lp_amount: read_u64_le(input, 1),
                    min_token_a_amount: read_u64_le(input, 9),
                    min_token_b_amount: read_u64_le(input, 17),
                },
            )
        } else if tag == 3 {
            if n < 17 {
                return Err(AmmError::InvalidInstruction.to_program_error());
            }
            Ok(
                AmmInstruction::Swap {
                    amount_in: read_u64_le(input, 1),
                    min_amount_out: read_u64_le(input, 9),
                },
            )
        } else {
            Err(AmmError::InvalidInstruction.to_program_error())
        }
    }

    /// Packs this instruction into its byte image.
    pub fn pack(&self) -> (r: Vec<u8>)
        ensures
            r@ == spec_pack_instruction(*self),
    {
        let mut buf: Vec<u8> = Vec::new();
        match *self {
            AmmInstruction::InitializePool { fee_numerator, fee_denominator } => {
                buf.push(0u8);
                push_u16_le(&mut buf, fee_numerator);
                push_u16_le(&mut buf, fee_denominator);
            },
            AmmInstruction::AddLiquidity { token_a_amount, token_b_amount, min_lp_amount } => {
                buf.push(1u8);
                push_u64_le(&mut buf, token_a_amount);
                push_u64_le(&mut buf, token_b_amount);
                push_u64_le(&mut buf, min_lp_amount);
            },
            AmmInstruction::RemoveLiquidity {
                lp_amount,
                min_token_a_amount,
                min_token_b_amount,
            } => {
                buf.push(2u8);
                push_u64_le(&mut buf, lp_amount);
                push_u64_le(&mut buf, min_token_a_amount);
                push_u64_le(&mut buf, min_token_b_amount);
            },
            AmmInstruction::Swap { amount_in, min_amount_out } => {
                buf.push(3u8);
                push_u64_le(&mut buf, amount_in);
                push_u64_le(&mut buf, min_amount_out);
            },
        };
        proof {
            assert(buf@ =~= spec_pack_instruction(*self));
        }
        buf
    }
}

/// Round trip: every instruction value decodes back from its own encoding.
pub proof fn lemma_instruction_round_trip(x: AmmInstruction)
    ensures
        spec_unpack_instruction(spec_pack_instruction(x)) == Ok::<AmmInstruction, ProgramError>(x),
{
    vstd::bytes::lemma_auto_spec_u16_to_from_le_bytes();
    vstd::bytes::lemma_auto_spec_u64_to_from_le_bytes();
    let s = spec_pack_instruction(x);
    match x {
        AmmInstruction::InitializePool { fee_numerator, fee_denominator } => {
            assert(s.subrange(1, 3) =~= vstd::bytes::spec_u16_to_le_bytes(fee_numerator));
            assert(s.subrange(3, 5) =~= vstd::bytes::spec_u16_to_le_bytes(fee_denominator));
        },
        AmmInstruction::AddLiquidity { token_a_amount, token_b_amount, min_lp_amount } => {
            assert(s.subrange(1, 9) =~= vstd::bytes::spec_u64_to_le_bytes(token_a_amount));
            assert(s.subrange(9, 17) =~= vstd::bytes::spec_u64_to_le_bytes(token_b_amount));
            assert(s.subrange(17, 25) =~= vstd::bytes::spec_u64_to_le_bytes(min_lp_amount));
        },
        AmmInstruction::RemoveLiquidity { lp_amount, min_token_a_amount, min_token_b_amount } => {
            assert(s.subrange(1, 9) =~= vstd::bytes::spec_u64_to_le_bytes(lp_amount));
            assert(s.subrange(9, 17) =~= vstd::bytes::spec_u64_to_le_bytes(min_token_a_amount));
            assert(s.subrange(17, 25) =~= vstd::bytes::spec_u64_to_le_bytes(min_token_b_amount));
        },
        AmmInstruction::Swap { amount_in, min_amount_out } => {
            assert(s.subrange(1, 9) =~= vstd::bytes::spec_u64_to_le_bytes(amount_in));
            assert(s.subrange(9, 17) =~= vstd::bytes::spec_u64_to_le_bytes(min_amount_out));
        },
    }
}

} // verus!
