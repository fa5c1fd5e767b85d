//! The runtime's state as mathematics: the transitions that blocks and
//! extrinsics stand for, and the laws that hold of them.

use crate::balances;
use crate::ledger::{balance_in, lemma_transfer_conserves, total};
use crate::proof_of_existence;
use crate::runtime::RuntimeCall;
use crate::types::{Balance, Block, BlockNumber, Extrinsic, Nonce};
use vstd::prelude::*;

verus! {

/// The runtime's state as mathematics: what a `Runtime` stands for in
/// contracts.
pub struct State {
    /// The number of the last block that was begun.
    pub block_number: nat,
    /// The recorded nonces, by account.
    pub nonces: Map<Seq<char>, nat>,
    /// The recorded balances, by account.
    pub balances: Map<Seq<char>, nat>,
    /// The owner of each claimed content.
    pub claims: Map<Seq<char>, Seq<char>>,
}

/// The number of extrinsics in `xts` that `who` originated.
pub open spec fn originated(xts: Seq<Extrinsic>, who: Seq<char>) -> nat
    decreases xts.len(),
{
    if xts.len() == 0 {
        0
    } else {
        originated(xts.drop_last(), who) + (if xts.last().caller@ == who {
            1nat
        } else {
            0nat
        })
    }
}


impl State {
    /// The state of a runtime that has executed nothing.
    pub open spec fn genesis() -> State {
        State {
            block_number: 0,
            nonces: Map::empty(),
            balances: Map::empty(),
            claims: Map::empty(),
        }
    }

    /// The nonce of `who`: zero where none is recorded.
    pub open spec fn nonce_of(self, who: Seq<char>) -> nat {
        if self.nonces.contains_key(who) {
            self.nonces[who]
        } else {
            0
        }
    }

    /// The balance of `who`: zero where none is recorded.
    pub open spec fn balance_of(self, who: Seq<char>) -> nat {
        balance_in(self.balances, who)
    }

    /// The message with which `call`, made by `caller`, is refused, if it
    /// is refused.
    pub open spec fn call_error(self, caller: Seq<char>, call: RuntimeCall) -> Option<Seq<char>> {
        match call {
            RuntimeCall::Balances(c) => balances::call_error(self.balances, caller, c),
            RuntimeCall::ProofOfExistence(c) => proof_of_existence::call_error(self.claims, c),
        }
    }

    /// The state after `call`, made by `caller`, was routed to its pallet.
    pub open spec fn dispatch(self, caller: Seq<char>, call: RuntimeCall) -> State {
        match call {
            RuntimeCall::Balances(c) => State {
                balances: balances::call_effect(self.balances, caller, c),
                ..self
            },
            RuntimeCall::ProofOfExistence(c) => State {
                claims: proof_of_existence::call_effect(self.claims, caller, c),
                ..self
            },
        }
    }

    /// The state after the nonce of `who` advanced by one.
    pub open spec fn bump_nonce(self, who: Seq<char>) -> State {
        State { nonces: self.nonces.insert(who, self.nonce_of(who) + 1), ..self }
    }

    /// The state after one extrinsic: the caller's nonce advances, then the
    /// call is dispatched, whether or not it is refused.
    pub open spec fn apply(self, xt: Extrinsic) -> State {
        self.bump_nonce(xt.caller@).dispatch(xt.caller@, xt.call)
    }

    /// The state after the extrinsics of `xts`, applied in order.
    pub open spec fn apply_all(self, xts: Seq<Extrinsic>) -> State
        decreases xts.len(),
    {
        if xts.len() == 0 {
            self
        } else {
            self.apply_all(xts.drop_last()).apply(xts.last())
        }
    }

    /// The extrinsics of `xts` whose calls are refused when `xts` is
    /// applied in order: for each, its position and the message.
    pub open spec fn failures(self, xts: Seq<Extrinsic>) -> Seq<(nat, Seq<char>)>
        decreases xts.len(),
    {
        if xts.len() == 0 {
            Seq::empty()
        } else {
            let earlier = self.failures(xts.drop_last());
            let xt = xts.last();
            match self.apply_all(xts.drop_last()).call_error(xt.caller@, xt.call) {
                Some(message) => earlier.push(((xts.len() - 1) as nat, message)),
                None => earlier,
            }
        }
    }

    /// The state after the block number advanced by one.
    pub open spec fn begin_block(self) -> State {
        State { block_number: self.block_number + 1, ..self }
    }

    /// Whether `block` declares the number that follows the current one.
    pub open spec fn accepts(self, block: Block) -> bool {
        block.header.block_number == self.block_number + 1
    }

    /// The state after `block` was handed in: the block number advances in
    /// any case, and the extrinsics are applied if the block is accepted.
    pub open spec fn execute_block(self, block: Block) -> State {
        if self.accepts(block) {
            self.begin_block().apply_all(block.extrinsics@)
        } else {
            self.begin_block()
        }
    }

    /// Whether the counters have room for `block`: the block number can
    /// advance, and if the block is accepted, so can the nonce of every
    /// caller, once for each extrinsic that it originated.
    pub open spec fn has_room_for(self, block: Block) -> bool {
        &&& self.block_number < BlockNumber::MAX
        &&& self.accepts(block) ==> forall|i: int|
            0 <= i < block.extrinsics@.len() ==> self.nonce_of(
                (#[trigger] block.extrinsics@[i]).caller@,
            ) + originated(block.extrinsics@, block.extrinsics@[i].caller@) <= Nonce::MAX
    }

    /// The state after the blocks of `blocks` were handed in, in order.
    pub open spec fn run(self, blocks: Seq<Block>) -> State
        decreases blocks.len(),
    {
        if blocks.len() == 0 {
            self
        } else {
            self.run(blocks.drop_last()).execute_block(blocks.last())
        }
    }

    /// The number of extrinsics that `who` originated in those blocks of
    /// `blocks` that are accepted when the blocks are handed in, in order.
    pub open spec fn originated_in(self, blocks: Seq<Block>, who: Seq<char>) -> nat
        decreases blocks.len(),
    {
        if blocks.len() == 0 {
            0
        } else {
            self.originated_in(blocks.drop_last(), who) + (if self.run(blocks.drop_last()).accepts(
                blocks.last(),
            ) {
                originated(blocks.last().extrinsics@, who)
            } else {
                0nat
            })
        }
    }
}

/// After a run of extrinsics an account's nonce has advanced by the number
/// of them that it originated, whether or not their calls were refused.
pub proof fn lemma_nonce_counts(state: State, xts: Seq<Extrinsic>, who: Seq<char>)
    ensures
        state.apply_all(xts).nonce_of(who) == state.nonce_of(who) + originated(xts, who),
    decreases xts.len(),
{
    if xts.len() > 0 {
        lemma_nonce_counts(state, xts.drop_last(), who);
    }
}

/// Extrinsics leave the block number as it was.
pub proof fn lemma_extrinsics_keep_block_number(state: State, xts: Seq<Extrinsic>)
    ensures
        state.apply_all(xts).block_number == state.block_number,
    decreases xts.len(),
{
    if xts.len() > 0 {
        lemma_extrinsics_keep_block_number(state, xts.drop_last());
    }
}

/// A prefix of a run holds no more extrinsics of an account than the run.
pub proof fn lemma_originated_prefix(xts: Seq<Extrinsic>, n: int, who: Seq<char>)
    requires
        0 <= n <= xts.len(),
    ensures
        originated(xts.take(n), who) <= originated(xts, who),
    decreases xts.len(),
{
    if n == xts.len() {
        assert(xts.take(n) =~= xts);
    } else {
        assert(xts.drop_last().take(n) =~= xts.take(n));
        lemma_originated_prefix(xts.drop_last(), n, who);
    }
}

/// Over any number of blocks, an account's nonce advances by the number of
/// extrinsics that it originated in the accepted blocks, however many of
/// their calls were refused.
pub proof fn lemma_nonce_counts_over_blocks(state: State, blocks: Seq<Block>, who: Seq<char>)
    ensures
        state.run(blocks).nonce_of(who) == state.nonce_of(who) + state.originated_in(blocks, who),
    decreases blocks.len(),
{
    if blocks.len() > 0 {
        let before = state.run(blocks.drop_last());
        lemma_nonce_counts_over_blocks(state, blocks.drop_last(), who);
        lemma_nonce_counts(before.begin_block(), blocks.last().extrinsics@, who);
    }
}

/// A runtime that starts from nothing records for each account exactly the
/// number of extrinsics that it originated.
pub proof fn lemma_nonce_from_genesis(blocks: Seq<Block>, who: Seq<char>)
    ensures
        State::genesis().run(blocks).nonce_of(who) == State::genesis().originated_in(blocks, who),
{
    lemma_nonce_counts_over_blocks(State::genesis(), blocks, who);
}

/// A block is accepted exactly if it declares the number that follows the
/// current one. An accepted block leaves the runtime at the number that it
/// declares. A rejected block advances the block number and changes
/// nothing else: no nonce, no balance, no claim.
pub proof fn lemma_block_sequencing(state: State, block: Block)
    ensures
        state.accepts(block) <==> block.header.block_number == state.block_number + 1,
        state.accepts(block) ==> state.execute_block(block).block_number
            == block.header.block_number,
        !state.accepts(block) ==> state.execute_block(block) == (State {
            block_number: state.block_number + 1,
            ..state
        }),
{
    lemma_extrinsics_keep_block_number(state.begin_block(), block.extrinsics@);
}

/// Blocks are numbered without gaps: each block handed in advances the
/// block number by one, accepted or not.
pub proof fn lemma_block_number_counts_blocks(state: State, blocks: Seq<Block>)
    ensures
        state.run(blocks).block_number == state.block_number + blocks.len(),
    decreases blocks.len(),
{
    if blocks.len() > 0 {
        lemma_block_number_counts_blocks(state, blocks.drop_last());
        lemma_block_sequencing(state.run(blocks.drop_last()), blocks.last());
    }
}

/// Before anything was executed every account has nonce zero and balance
/// zero, and no entry stands for either.
pub proof fn lemma_genesis_is_zero(who: Seq<char>)
    ensures
        State::genesis().nonce_of(who) == 0,
        State::genesis().balance_of(who) == 0,
        !State::genesis().nonces.contains_key(who),
        !State::genesis().balances.contains_key(who),
{
}

/// One extrinsic records finitely many balances if there were finitely
/// many before, and it keeps their total, whether its call is refused or
/// not.
pub proof fn lemma_extrinsic_conserves_supply(state: State, xt: Extrinsic)
    requires
        state.balances.dom().finite(),
    ensures
        state.apply(xt).balances.dom().finite(),
        total(state.apply(xt).balances) == total(state.balances),
{
    match xt.call {
        RuntimeCall::Balances(balances::Call::Transfer { to, amount }) => {
            if state.call_error(xt.caller@, xt.call) is None {
                lemma_transfer_conserves(
                    state.balances,
                    xt.caller@,
                    to@,
                    amount as nat,
                    Balance::MAX as nat,
                );
            }
        },
        RuntimeCall::ProofOfExistence(_) => {},
    }
}

/// The total of all balances is the same before and after a run of
/// extrinsics, whether their calls are refused or not.
pub proof fn lemma_supply_conserved(state: State, xts: Seq<Extrinsic>)
    requires
        state.balances.dom().finite(),
    ensures
        state.apply_all(xts).balances.dom().finite(),
        total(state.apply_all(xts).balances) == total(state.balances),
    decreases xts.len(),
{
    if xts.len() > 0 {
        lemma_supply_conserved(state, xts.drop_last());
        lemma_extrinsic_conserves_supply(state.apply_all(xts.drop_last()), xts.last());
    }
}

/// A block keeps the total of all balances, accepted or not.
pub proof fn lemma_block_conserves_supply(state: State, block: Block)
    requires
        state.balances.dom().finite(),
    ensures
        state.execute_block(block).balances.dom().finite(),
        total(state.execute_block(block).balances) == total(state.balances),
{
    lemma_supply_conserved(state.begin_block(), block.extrinsics@);
}

/// A refused call changes no state but the caller's nonce: the extrinsic
/// that carries it advances the nonce and leaves balances and claims as
/// they were.
pub proof fn lemma_refused_extrinsic(state: State, xt: Extrinsic)
    requires
        state.call_error(xt.caller@, xt.call) is Some,
    ensures
        state.apply(xt) == state.bump_nonce(xt.caller@),
{
}

} // verus!
