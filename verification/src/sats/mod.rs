//! The wrapped-sats vault program: its errors, instruction decoding, vault
//! record, and processor.

pub mod error;
pub mod instruction;
pub mod processor;
pub mod state;
