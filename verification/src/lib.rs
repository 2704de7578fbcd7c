#![verifier::loop_isolation(false)]
//! A fungible-token ledger with delegated allowances and a configurable
//! transfer-fee subsystem.
//!
//! The crate models the ledger as an explicit [`state::TokenState`] record:
//! every mutation handler takes the state, validates the request, and either
//! applies the whole change or leaves the state untouched.  The host that
//! persists the state, decodes messages and validates address formats sits
//! outside this crate.

pub mod allowances;
pub mod arith;
pub mod contract;
pub mod enumerable;
pub mod error;
pub mod fee;
pub mod fmt;
pub mod msg;
pub mod response;
pub mod state;

pub use crate::error::ContractError;
