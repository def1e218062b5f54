//! A raffle pool: numbered tickets are sold against an escrow, and when the
//! sale window has passed one ticket wins what the escrow holds.

pub mod codec;
pub mod engine;
pub mod error;
pub mod escrow;
pub mod identity;
pub mod instruction;
pub mod laws;
pub mod ledger;
pub mod native;
pub mod randomness;
pub mod state;
pub mod transfer;
