//! Client-side logic for provisioning a token faucet: deriving the faucet
//! program's mint authority, encoding the faucet program's instructions, and
//! assembling the ordered, atomically executed instruction list that creates a
//! mint together with its faucet account.

pub mod address;
pub mod amount;
pub mod chain;
pub mod error;
pub mod faucet;
pub mod instruction;
pub mod plan;
