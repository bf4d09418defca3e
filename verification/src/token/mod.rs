//! The token ledger: mints, holdings, multisignature authorities, and the
//! processor that applies ledger instructions to them.

pub mod error;
pub mod instruction;
pub mod processor;
pub mod state;
pub mod uiamount;
