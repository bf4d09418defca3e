//! Errors returned by the pool program.

use vstd::prelude::*;

use crate::program_error::ProgramError;

verus! {

/// Errors that may be returned by the pool program.
#[derive(Clone, Copy, Debug, PartialEq, Eq, Structural)]
pub enum AmmError {
    /// Pool has already been initialized.
    AlreadyInitialized,
    /// Invalid fee configuration.
    InvalidFeeConfig,
    /// Insufficient liquidity for the operation.
    InsufficientLiquidity,
    /// Slippage tolerance exceeded.
    SlippageExceeded,
    /// Invalid pool tokens provided.
    InvalidPoolTokens,
    /// Invalid pool state.
    InvalidPoolState,
    /// Math operation overflow.
    MathOverflow,
    /// Instruction tag unrecognized or payload malformed.
    InvalidInstruction,
}

impl AmmError {
    /// The numeric code under which this error travels as `ProgramError::Custom`.
    pub open spec fn spec_code(self) -> u32 {
        match self {
            AmmError::AlreadyInitialized => 0,
            AmmError::InvalidFeeConfig => 1,
            AmmError::InsufficientLiquidity => 2,
            AmmError::SlippageExceeded => 3,
            AmmError::InvalidPoolTokens => 4,
            AmmError::InvalidPoolState => 5,
            AmmError::MathOverflow => 6,
            AmmError::InvalidInstruction => 7,
        }
    }

    /// The `ProgramError` carrying this error's code.
    pub open spec fn spec_program_error(self) -> ProgramError {
        ProgramError::Custom(self.spec_code())
    }

    /// Wraps the error into the shared `ProgramError` type.
    pub fn to_program_error(self) -> (r: ProgramError)
        ensures
            r == self.spec_program_error(),
    {
        let code: u32 = match self {
            AmmError::AlreadyInitialized => 0,
            AmmError::InvalidFeeConfig => 1,
            AmmError::InsufficientLiquidity => 2,
            AmmError::SlippageExceeded => 3,
            AmmError::InvalidPoolTokens => 4,
            AmmError::InvalidPoolState => 5,
            AmmError::MathOverflow => 6,
            AmmError::InvalidInstruction => 7,
        };
        ProgramError::Custom(code)
    }
}

impl From<AmmError> for ProgramError {
    fn from(e: AmmError) -> (r: ProgramError) {
        e.to_program_error()
    }
}

impl vstd::std_specs::convert::FromSpecImpl<AmmError> for ProgramError {
    open spec fn obeys_from_spec() -> bool {
        true
    }

    open spec fn from_spec(e: AmmError) -> ProgramError {
        e.spec_program_error()
    }
}

} // verus!
