//! A program for a ledger runtime that hands typed values back to the program
//! that invoked it: a scalar, a record, a sequence, and the counter that one of its
//! accounts stores.
//!
//! The library works on plain values. The host's accounts come in as
//! [`AccountInfo`] values, the call's outcome goes out as the new account values
//! and the bytes for the host's return channel. What the operations do is stated
//! in their contracts and proved; [`laws`] states what holds of them together.

pub mod account;
pub mod dispatch;
pub mod error;
pub mod instructions;
pub mod laws;
pub mod pubkey;
pub mod wire;

pub use account::{AccountInfo, CpiReturnAccount};
pub use dispatch::{dispatch, entry, Instruction, ReturnValue};
pub use error::{ErrorCode, ErrorKind};
pub use instructions::{initialize, return_struct, return_u64, return_u64_from_account, return_vec};
pub use instructions::{CpiReturn, Initialize, StructReturn};
pub use pubkey::Pubkey;
