//! A two-party wager escrow: two parties stake equal amounts into a vault, an
//! arbiter (the oracle) settles the wager, and after the deadline anyone can
//! trigger a refund. Every instruction is a verified transition over plain
//! account snapshots; the host runtime loads and stores those snapshots.
pub mod address;
pub mod escrow;
pub mod transfer;
pub mod instructions;
pub mod laws;

pub use address::Address;
pub use escrow::{Account, Escrow, EscrowError, EscrowState};
pub use instructions::{create, join, refund, settle, Create, Join, Refund, Settle};
