//! Errors returned by the vault program.

use vstd::prelude::*;

use crate::program_error::ProgramError;

verus! {

/// Errors that may be returned by the vault program.
#[derive(Clone, Copy, Debug, PartialEq, Eq, Structural)]
pub enum SatsError {
    /// Invalid instruction.
    InvalidInstruction,
    /// Invalid mint authority.
    InvalidMintAuthority,
    /// Invalid burn authority.
    InvalidBurnAuthority,
    /// Invalid locked output.
    InvalidUtxo,
    /// Insufficient balance.
    InsufficientBalance,
    /// Invalid receiving address.
    InvalidBitcoinAddress,
}

impl SatsError {
    /// The numeric code under which this error travels as `ProgramError::Custom`.
    pub open spec fn spec_code(self) -> u32 {
        match self {
            SatsError::InvalidInstruction => 0,
            SatsError::InvalidMintAuthority => 1,
            SatsError::InvalidBurnAuthority => 2,
            SatsError::InvalidUtxo => 3,
            SatsError::InsufficientBalance => 4,
            SatsError::InvalidBitcoinAddress => 5,
        }
    }

    /// The `ProgramError` carrying this error's code.
    pub open spec fn spec_program_error(self) -> ProgramError {
        ProgramError::Custom(self.spec_code())
    }

    /// Wraps the error into the shared `ProgramError` type.
    pub fn to_program_error(self) -> (r: ProgramError)
        ensures
            r == self.spec_program_error(),
    {
        let code: u32 = match self {
            SatsError::InvalidInstruction => 0,
            SatsError::InvalidMintAuthority => 1,
            SatsError::InvalidBurnAuthority => 2,
            SatsError::InvalidUtxo => 3,
            SatsError::InsufficientBalance => 4,
            SatsError::InvalidBitcoinAddress => 5,
        };
        ProgramError::Custom(code)
    }
}

impl From<SatsError> for ProgramError {
    fn from(e: SatsError) -> (r: ProgramError) {
        e.to_program_error()
    }
}

impl vstd::std_specs::convert::FromSpecImpl<SatsError> for ProgramError {
    open spec fn obeys_from_spec() -> bool {
        true
    }

    open spec fn from_spec(e: SatsError) -> ProgramError {
        e.spec_program_error()
    }
}

} // verus!
