//! The concrete types that the runtime is built from.

use crate::runtime::RuntimeCall;
use crate::support;
use vstd::prelude::*;

verus! {

/// Accounts are identified by name.
pub type AccountId = String;

/// Balances are held in 128 bits.
pub type Balance = u128;

/// Blocks are numbered in 32 bits.
pub type BlockNumber = u32;

/// Nonces are counted in 32 bits.
pub type Nonce = u32;

/// An extrinsic of the runtime.
pub type Extrinsic = support::Extrinsic<AccountId, RuntimeCall>;

/// The header of a block of the runtime.
pub type Header = support::Header<BlockNumber>;

/// A block of the runtime.
pub type Block = support::Block<Header, Extrinsic>;

/// Claimed content is text.
pub type Content = String;

} // verus!
