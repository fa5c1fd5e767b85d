//! The runtime: one instance of each pallet, the routing of calls to the
//! pallet that owns them, and the execution of blocks.

use crate::balances;
use crate::ledger::total;
use crate::proof_of_existence;
use crate::state::{
    lemma_block_conserves_supply, lemma_extrinsics_keep_block_number, lemma_nonce_counts,
    lemma_originated_prefix, originated, State,
};
use crate::storage::Key;
use crate::support;
use crate::support::{Dispatch, DispatchResult};
use crate::system;
use crate::system::SystemError;
use crate::types::{AccountId, Balance, Block, BlockNumber, Content, Extrinsic, Nonce};
use vstd::prelude::*;

verus! {

/// The configuration that the runtime's pallets share.
#[derive(Debug)]
pub struct RuntimeConfig;

impl system::Config for RuntimeConfig {
    type AccountId = AccountId;

    type BlockNumber = BlockNumber;

    type Nonce = Nonce;
}

impl balances::Config for RuntimeConfig {
    type Balance = Balance;
}

impl proof_of_existence::Config for RuntimeConfig {
    type Content = Content;
}

/// The calls that the runtime accepts: one case for each pallet that can
/// be called.
#[derive(Debug)]
pub enum RuntimeCall {
    /// A call to the balances pallet.
    Balances(balances::Call<RuntimeConfig>),
    /// A call to the proof-of-existence pallet.
    ProofOfExistence(proof_of_existence::Call<RuntimeConfig>),
}

/// The runtime: one instance of each pallet.
#[derive(Debug)]
pub struct Runtime {
    /// The block number and the nonces.
    pub system: system::Pallet<RuntimeConfig>,
    /// The balances.
    pub balances: balances::Pallet<RuntimeConfig>,
    /// The claims.
    pub proof_of_existence: proof_of_existence::Pallet<RuntimeConfig>,
}

/// The message with which a block is rejected whose number is not the next
/// one.
pub const BLOCK_NUMBER_MISMATCH: &'static str = "block number does not match what is expected";

/// The report on an extrinsic whose call was refused.
#[derive(Debug)]
pub struct ExtrinsicError {
    /// The number of the block that holds the extrinsic.
    pub block_number: BlockNumber,
    /// The position of the extrinsic in its block, counted from zero.
    pub extrinsic_number: usize,
    /// The message with which the call was refused.
    pub error: &'static str,
}

/// Whether `reports` tells of the failures `failed` in block `number`.
pub open spec fn reports_match(
    reports: Seq<ExtrinsicError>,
    number: BlockNumber,
    failed: Seq<(nat, Seq<char>)>,
) -> bool {
    &&& reports.len() == failed.len()
    &&& forall|k: int|
        0 <= k < reports.len() ==> {
            &&& (#[trigger] reports[k]).block_number == number
            &&& reports[k].extrinsic_number == failed[k].0
            &&& reports[k].error@ == failed[k].1
        }
}

impl View for Runtime {
    type V = State;

    open spec fn view(&self) -> State {
        State {
            block_number: self.system.height(),
            nonces: self.system.nonces(),
            balances: self.balances@,
            claims: self.proof_of_existence@,
        }
    }
}

impl Runtime {
    /// Creates a runtime in which every pallet is new: block zero, no
    /// nonce, no balance, no claim.
    pub fn new() -> (r: Self)
        ensures
            r@ == State::genesis(),
    {
        Self {
            system: system::Pallet::new(),
            balances: balances::Pallet::new(),
            proof_of_existence: proof_of_existence::Pallet::new(),
        }
    }

    /// Counts the extrinsics of `xts` that `who` originated.
    fn count_originated(xts: &Vec<Extrinsic>, who: &AccountId) -> (n: usize)
        ensures
            n == originated(xts@, who@),
    {
        let mut n: usize = 0;
        let mut j: usize = 0;
        while j < xts.len()
            invariant
                j <= xts.len(),
                n <= j,
                n == originated(xts@.take(j as int), who@),
            decreases xts.len() - j,
        {
            proof {
                assert(xts@.take(j + 1).drop_last() =~= xts@.take(j as int));
            }
            if xts[j].caller.same(who) {
                n += 1;
            }
            j += 1;
        }
        proof {
            assert(xts@.take(xts.len() as int) =~= xts@);
        }
        n
    }

    /// Tests whether the counters have room for `block`, which
    /// `execute_block` asks of its caller. The block number is tested
    /// first. A block that would be rejected needs no more room; for one
    /// that would be accepted, each caller's nonce is tested against the
    /// number of extrinsics that the caller originated in the block.
    pub fn check_room_for(&self, block: &Block) -> (r: Result<(), SystemError>)
        ensures
            match r {
                Ok(_) => self@.has_room_for(*block),
                Err(SystemError::BlockOverflow) => self@.block_number >= BlockNumber::MAX,
                Err(SystemError::NonceOveflow) => self@.block_number < BlockNumber::MAX
                    && !self@.has_room_for(*block),
            },
    {
        let current = self.system.block_number();
        if current == BlockNumber::MAX {
            return Err(SystemError::BlockOverflow);
        }
        if block.header.block_number != current + 1 {
            return Ok(());
        }
        let ghost xts = block.extrinsics@;
        let mut i: usize = 0;
        while i < block.extrinsics.len()
            invariant
                i <= block.extrinsics.len(),
                xts == block.extrinsics@,
                self@.block_number < BlockNumber::MAX,
                self@.accepts(*block),
                forall|j: int|
                    0 <= j < i ==> self@.nonce_of((#[trigger] xts[j]).caller@) + originated(
                        xts,
                        xts[j].caller@,
                    ) <= Nonce::MAX,
            decreases block.extrinsics.len() - i,
        {
            let who = &block.extrinsics[i].caller;
            let count = Self::count_originated(&block.extrinsics, who);
            let nonce = self.system.nonce(who);
            if count > (Nonce::MAX - nonce) as usize {
                return Err(SystemError::NonceOveflow);
            }
            i += 1;
        }
        Ok(())
    }

    /// Executes a block. The block number advances first; a block that
    /// does not declare the new number is rejected with
    /// `BLOCK_NUMBER_MISMATCH`, and the advance is not undone. Otherwise
    /// each extrinsic, in order, advances its caller's nonce and has its
    /// call dispatched. A refused call does not stop the block: it is
    /// added to the reports that are returned, and the caller's nonce
    /// stays advanced.
    ///
    /// The counters must have room for the block, which
    /// `check_room_for` tests; `try_execute_block` makes that test itself.
    pub fn execute_block(&mut self, block: Block) -> (r: Result<Vec<ExtrinsicError>, &'static str>)
        requires
            old(self)@.has_room_for(block),
        ensures
            final(self)@ == old(self)@.execute_block(block),
            match r {
                Ok(reports) => old(self)@.accepts(block) && reports_match(
                    reports@,
                    block.header.block_number,
                    old(self)@.begin_block().failures(block.extrinsics@),
                ),
                Err(message) => !old(self)@.accepts(block) && message@ == BLOCK_NUMBER_MISMATCH@,
            },
            r is Ok <==> block.header.block_number == old(self)@.block_number + 1,
            r is Err ==> final(self)@.nonces == old(self)@.nonces && final(self)@.balances == old(
                self,
            )@.balances && final(self)@.claims == old(self)@.claims,
            final(self)@.block_number == old(self)@.block_number + 1,
            forall|who: Seq<char>|
                #![trigger final(self)@.nonce_of(who)]
                final(self)@.nonce_of(who) == old(self)@.nonce_of(who) + (if r is Ok {
                    originated(block.extrinsics@, who)
                } else {
                    0
                }),
            total(final(self)@.balances) == total(old(self)@.balances),
    {
        proof {
            self.balances.lemma_finite();
            lemma_block_conserves_supply(old(self)@, block);
            lemma_extrinsics_keep_block_number(old(self)@.begin_block(), block.extrinsics@);
            assert forall|who: Seq<char>|
                old(self)@.begin_block().apply_all(block.extrinsics@).nonce_of(who) == old(
                    self,
                )@.nonce_of(who) + originated(block.extrinsics@, who) by {
                lemma_nonce_counts(old(self)@.begin_block(), block.extrinsics@, who);
            }
        }
        self.system.inc_block_number();
        let number = block.header.block_number;
        if number != self.system.block_number() {
            return Err(BLOCK_NUMBER_MISMATCH);
        }
        let ghost begun = self@;
        let ghost xts = block.extrinsics@;
        assert(xts.len() == block.extrinsics.len());
        let mut reports: Vec<ExtrinsicError> = Vec::new();
        let mut i: usize = 0;
        for xt in it: block.extrinsics.into_iter()
            invariant
                it.seq() == xts,
                i == it.index(),
                xts.len() <= usize::MAX,
                self@ == begun.apply_all(xts.take(i as int)),
                reports_match(reports@, number, begun.failures(xts.take(i as int))),
                forall|j: int|
                    0 <= j < xts.len() ==> begun.nonce_of((#[trigger] xts[j]).caller@) + originated(
                        xts,
                        xts[j].caller@,
                    ) <= Nonce::MAX,
        {
            proof {
                assert(xts.take(i + 1).drop_last() =~= xts.take(i as int));
                lemma_nonce_counts(begun, xts.take(i as int), xt.caller@);
                lemma_originated_prefix(xts, i + 1, xt.caller@);
            }
            let support::Extrinsic { caller, call } = xt;
            self.system.inc_nonce(&caller);
            match self.dispatch(caller, call) {
                Ok(()) => {},
                Err(e) => {
                    reports.push(ExtrinsicError { block_number: number, extrinsic_number: i, error: e });
                },
            }
            i += 1;
        }
        proof {
            assert(xts.take(xts.len() as int) =~= xts);
        }
        Ok(reports)
    }

    /// Executes a block if the counters have room for it, and refuses it
    /// otherwise, before anything is changed: not even the block number
    /// advances. It asks nothing of its caller.
    ///
    /// Whatever the extrinsics are, only a block that declares the number
    /// after the current one is executed with success, and a block that
    /// declares another number changes no nonce, no balance and no claim.
    pub fn try_execute_block(&mut self, block: Block) -> (r: Result<
        Result<Vec<ExtrinsicError>, &'static str>,
        SystemError,
    >)
        ensures
            match r {
                Ok(outcome) => {
                    &&& old(self)@.has_room_for(block)
                    &&& final(self)@ == old(self)@.execute_block(block)
                    &&& match outcome {
                        Ok(reports) => old(self)@.accepts(block) && reports_match(
                            reports@,
                            block.header.block_number,
                            old(self)@.begin_block().failures(block.extrinsics@),
                        ),
                        Err(message) => !old(self)@.accepts(block) && message@
                            == BLOCK_NUMBER_MISMATCH@,
                    }
                },
                Err(e) => {
                    &&& !old(self)@.has_room_for(block)
                    &&& final(self)@ == old(self)@
                    &&& e is BlockOverflow <==> old(self)@.block_number >= BlockNumber::MAX
                },
            },
            r matches Ok(Ok(_)) ==> block.header.block_number == old(self)@.block_number + 1,
            block.header.block_number != old(self)@.block_number + 1 ==> final(self)@.nonces == old(
                self,
            )@.nonces && final(self)@.balances == old(self)@.balances && final(self)@.claims
                == old(self)@.claims,
            total(final(self)@.balances) == total(old(self)@.balances),
    {
        match self.check_room_for(&block) {
            Ok(()) => Ok(self.execute_block(block)),
            Err(e) => Err(e),
        }
    }
}

impl Dispatch for Runtime {
    type Caller = AccountId;

    type Call = RuntimeCall;

    /// Dispatch a call on behalf of a caller: the call goes to the pallet
    /// that owns it, with the caller passed through, and that pallet's
    /// result is returned as it is.
    fn dispatch(&mut self, caller: Self::Caller, runtime_call: Self::Call) -> (r: DispatchResult)
        ensures
            (match r {
                Ok(_) => None,
                Err(message) => Some(message@),
            }) == old(self)@.call_error(caller@, runtime_call),
            final(self)@ == old(self)@.dispatch(caller@, runtime_call),
    {
        match runtime_call {
            RuntimeCall::Balances(call) => self.balances.dispatch(caller, call),
            RuntimeCall::ProofOfExistence(call) => self.proof_of_existence.dispatch(caller, call),
        }
    }
}

} // verus!
