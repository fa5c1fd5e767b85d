//! A deterministic state-transition machine: independent pallets composed
//! into one runtime that executes blocks of extrinsics.

pub mod balances;
pub mod ledger;
pub mod numeric;
pub mod proof_of_existence;
pub mod runtime;
pub mod state;
pub mod storage;
pub mod support;
pub mod system;
pub mod types;

pub use runtime::{Runtime, RuntimeCall};
