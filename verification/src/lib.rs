//! Authorization and parsing layer for programs that operate on
//! externally-owned, byte-addressable account records in a shared ledger
//! runtime: declarative account validation, typed zero-copy record checks,
//! account lifecycle transitions, and an authorized event-emission protocol.

pub mod account;
pub mod consts;
pub mod deserialize;
pub mod error;
pub mod instructions;
pub mod logging;
pub mod pda;
pub mod records;
pub mod validation;

pub use error::ProgramError;
