//! Errors returned by the token ledger.

use vstd::prelude::*;

use crate::program_error::ProgramError;

verus! {

/// Errors that may be returned by the token ledger.
#[derive(Clone, Copy, Debug, PartialEq, Eq, Structural)]
pub enum TokenError {
    /// Lamport balance below rent-exempt threshold.
    NotRentExempt,
    /// Insufficient funds for the operation requested.
    InsufficientFunds,
    /// Invalid mint.
    InvalidMint,
    /// Account not associated with this mint.
    MintMismatch,
    /// Owner does not match.
    OwnerMismatch,
    /// This token's supply is fixed and new tokens cannot be minted.
    FixedSupply,
    /// The account cannot be initialized because it is already being used.
    AlreadyInUse,
    /// Invalid number of provided signers.
    InvalidNumberOfProvidedSigners,
    /// Invalid number of required signers.
    InvalidNumberOfRequiredSigners,
    /// State is uninitialized.
    UninitializedState,
    /// Instruction does not support native tokens.
    NativeNotSupported,
    /// Non-native account can only be closed if its balance is zero.
    NonNativeHasBalance,
    /// Invalid instruction.
    InvalidInstruction,
    /// State is invalid for the requested operation.
    InvalidState,
    /// Operation overflowed.
    Overflow,
    /// Account does not support the specified authority type.
    AuthorityTypeNotSupported,
    /// This token mint cannot freeze accounts.
    MintCannotFreeze,
    /// Account is frozen; all account operations fail.
    AccountFrozen,
    /// Mint decimals mismatch between the client and the mint.
    MintDecimalsMismatch,
}

impl TokenError {
    /// The numeric code under which this error travels as `ProgramError::Custom`.
    pub open spec fn spec_code(self) -> u32 {
        match self {
            TokenError::NotRentExempt => 0,
            TokenError::InsufficientFunds => 1,
            TokenError::InvalidMint => 2,
            TokenError::MintMismatch => 3,
            TokenError::OwnerMismatch => 4,
            TokenError::FixedSupply => 5,
            TokenError::AlreadyInUse => 6,
            TokenError::InvalidNumberOfProvidedSigners => 7,
            TokenError::InvalidNumberOfRequiredSigners => 8,
            TokenError::UninitializedState => 9,
            TokenError::NativeNotSupported => 10,
            TokenError::NonNativeHasBalance => 11,
            TokenError::InvalidInstruction => 12,
            TokenError::InvalidState => 13,
            TokenError::Overflow => 14,
            TokenError::AuthorityTypeNotSupported => 15,
            TokenError::MintCannotFreeze => 16,
            TokenError::AccountFrozen => 17,
            TokenError::MintDecimalsMismatch => 18,
        }
    }

    /// The `ProgramError` carrying this error's code.
    pub open spec fn spec_program_error(self) -> ProgramError {
        ProgramError::Custom(self.spec_code())
    }

    /// Wraps the error into the shared `ProgramError` type.
    pub fn to_program_error(self) -> (r: ProgramError)
        ensures
            r == self.spec_program_error(),
    {
        let code: u32 = match self {
            TokenError::NotRentExempt => 0,
            TokenError::InsufficientFunds => 1,
            TokenError::InvalidMint => 2,
            TokenError::MintMismatch => 3,
            TokenError::OwnerMismatch => 4,
            TokenError::FixedSupply => 5,
            TokenError::AlreadyInUse => 6,
            TokenError::InvalidNumberOfProvidedSigners => 7,
            TokenError::InvalidNumberOfRequiredSigners => 8,
            TokenError::UninitializedState => 9,
            TokenError::NativeNotSupported => 10,
            TokenError::NonNativeHasBalance => 11,
            TokenError::InvalidInstruction => 12,
            TokenError::InvalidState => 13,
            TokenError::Overflow => 14,
            TokenError::AuthorityTypeNotSupported => 15,
            TokenError::MintCannotFreeze => 16,
            TokenError::AccountFrozen => 17,
            TokenError::MintDecimalsMismatch => 18,
        };
        ProgramError::Custom(code)
    }
}

impl From<TokenError> for ProgramError {
    fn from(e: TokenError) -> (r: ProgramError) {
        e.to_program_error()
    }
}

impl vstd::std_specs::convert::FromSpecImpl<TokenError> for ProgramError {
    open spec fn obeys_from_spec() -> bool {
        true
    }

    open spec fn from_spec(e: TokenError) -> ProgramError {
        e.spec_program_error()
    }
}

} // verus!
