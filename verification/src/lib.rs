//! Settlement logic for creator reward pools and unidirectional payment
//! channels: the rules that decide, for every instruction, whether it is
//! accepted, how the on-chain state changes and which token transfers and
//! events it produces.

pub mod errors;
pub mod events;
pub mod fees;
pub mod hash;
pub mod instruction_laws;
pub mod laws;
pub mod instructions;
pub mod pubkey;
pub mod state;
pub mod transfer;
pub mod voucher;
