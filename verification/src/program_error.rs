//! Errors shared by every handler in the crate.

use vstd::prelude::*;

verus! {

/// Failure of a handler, as surfaced to the outer dispatch layer.
///
/// Program-specific failures travel as `Custom` with the program's own
/// error code; the remaining variants are structural faults found while
/// walking or decoding accounts.
#[derive(Clone, Copy, Debug, PartialEq, Eq, Structural)]
pub enum ProgramError {
    /// A program-specific error code.
    Custom(u32),
    /// Fewer accounts were supplied than the handler needs.
    NotEnoughAccountKeys,
    /// An account's stored bytes do not decode as the expected record.
    InvalidAccountData,
    /// An account is owned by a different program than required.
    IncorrectProgramId,
    /// An argument does not identify any handled record shape.
    InvalidArgument,
    /// A required signature is absent.
    MissingRequiredSignature,
    /// A derived address does not match the account supplied for it.
    InvalidSeeds,
    /// The instruction payload is malformed.
    InvalidInstructionData,
    /// A record that must be initialized is not.
    UninitializedAccount,
}

} // verus!
