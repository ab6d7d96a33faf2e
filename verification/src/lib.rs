//! Account constraint validation, derived-address verification and
//! cross-program invocation building for programs on an account-based ledger.

pub mod account;
pub mod address;
pub mod constraint;
pub mod derivation;
pub mod dispatch;
pub mod error;
pub mod instructions;
pub mod invocation;
