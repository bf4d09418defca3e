//! The constant-product liquidity-pool program: errors, instruction codec,
//! fixed-point math engine, pool record, and the operation handler.

pub mod error;
pub mod instruction;
pub mod math;
pub mod processor;
pub mod state;
