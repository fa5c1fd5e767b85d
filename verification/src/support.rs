//! The shapes that the pallets and the runtime share: blocks, extrinsics
//! and the dispatch interface.

use vstd::prelude::*;

verus! {

/// A block: a header and the extrinsics to execute, in order.
#[derive(Debug)]
pub struct Block<Header, Extrinsic> {
    /// What the block declares about itself.
    pub header: Header,
    /// The extrinsics of the block, in the order in which they are executed.
    pub extrinsics: Vec<Extrinsic>,
}

/// The header of a block.
#[derive(Debug)]
pub struct Header<BlockNumber> {
    /// The number that the block declares for itself.
    pub block_number: BlockNumber,
}

/// A call together with the account that makes it.
#[derive(Debug)]
pub struct Extrinsic<Caller, Call> {
    /// Who the call is made for.
    pub caller: Caller,
    /// What is asked for.
    pub call: Call,
}

/// The result of a dispatched call: success, or the reason for the failure.
pub type DispatchResult = Result<(), &'static str>;

/// A pallet or runtime that executes calls on behalf of callers.
pub trait Dispatch {
    /// Who a call is made for.
    type Caller;

    /// The calls that can be made.
    type Call;

    /// Executes `call` on behalf of `caller`.
    fn dispatch(&mut self, caller: Self::Caller, call: Self::Call) -> DispatchResult;
}

} // verus!
