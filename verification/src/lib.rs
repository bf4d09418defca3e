//! Accounting core of a constant-product automated market maker, together
//! with the token ledger, vault, and account plumbing it runs against.
//!
//! The crate models accounts as plain byte buffers tagged with their key,
//! owner, and signer flag.  Every handler validates, computes, and only then
//! mutates its accounts or reports the external effects it requests, so an
//! operation either applies completely or leaves all state untouched.

pub mod account;
pub mod amm;
pub mod ata;
pub mod codec;
pub mod program_error;
pub mod pubkey;
pub mod sats;
pub mod test_utils;
pub mod token;
