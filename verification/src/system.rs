//! The system pallet: the current block number and each account's nonce.

use crate::numeric::Counter;
use crate::storage::{Key, StorageMap};
use vstd::prelude::*;

verus! {

/// The types that the system pallet is configured with.
pub trait Config {
    /// Identifies an account.
    type AccountId: Key + core::fmt::Debug;

    /// Numbers the blocks.
    type BlockNumber: Counter + core::fmt::Debug;

    /// Counts the extrinsics that an account has originated.
    type Nonce: Counter + core::fmt::Debug;
}

/// The ways in which the pallet's counters can run out of room.
#[derive(Debug, Clone, Copy, PartialEq, Eq, Structural)]
pub enum SystemError {
    /// The block number cannot advance: it is at the largest value of its
    /// type.
    BlockOverflow,
    /// An account's nonce cannot advance as far as it is asked to.
    NonceOveflow,
}

/// The system pallet's state.
#[derive(Debug)]
pub struct Pallet<T: Config> {
    block_number: T::BlockNumber,
    nonce: StorageMap<T::AccountId, T::Nonce>,
}

impl<T: Config> Pallet<T> {
    /// The number of the last block that was begun.
    pub closed spec fn height(&self) -> nat {
        self.block_number.value()
    }

    /// The recorded nonces, by account. Accounts that never originated an
    /// extrinsic have no entry.
    pub closed spec fn nonces(&self) -> Map<<T::AccountId as View>::V, nat> {
        self.nonce@.map_values(|n: T::Nonce| n.value())
    }

    /// The nonce of `who`: the recorded one, or zero where none is recorded.
    pub open spec fn nonce_of(&self, who: <T::AccountId as View>::V) -> nat {
        if self.nonces().contains_key(who) {
            self.nonces()[who]
        } else {
            0
        }
    }

    /// Create a new instance of the system pallet: block zero, no nonces.
    pub fn new() -> (r: Self)
        ensures
            r.height() == 0,
            r.nonces() == Map::<<T::AccountId as View>::V, nat>::empty(),
    {
        Self { block_number: T::BlockNumber::zero(), nonce: StorageMap::new() }
    }

    /// The current block number.
    pub fn block_number(&self) -> (r: T::BlockNumber)
        ensures
            r.value() == self.height(),
    {
        self.block_number
    }

    /// The nonce recorded for `who`, or `None` where the account never
    /// originated an extrinsic.
    pub fn get_nonce(&self, who: &T::AccountId) -> (r: Option<&T::Nonce>)
        ensures
            match r {
                Some(n) => self.nonces().contains_key(who@) && n.value() == self.nonces()[who@],
                None => !self.nonces().contains_key(who@),
            },
    {
        self.nonce.get(who)
    }

    /// The nonce of `who`. An account without an entry has nonce zero, and
    /// reading it creates none.
    pub fn nonce(&self, who: &T::AccountId) -> (r: T::Nonce)
        ensures
            r.value() == self.nonce_of(who@),
            !self.nonces().contains_key(who@) ==> r.value() == 0,
    {
        match self.nonce.get(who) {
            Some(n) => *n,
            None => T::Nonce::zero(),
        }
    }

    /// Advances the block number by one.
    pub fn inc_block_number(&mut self)
        requires
            old(self).height() < T::BlockNumber::max_value(),
        ensures
            final(self).height() == old(self).height() + 1,
            final(self).nonces() == old(self).nonces(),
    {
        self.block_number = self.block_number.plus(T::BlockNumber::one());
    }

    /// Advances the nonce of `caller` by one, creating its entry where it
    /// had none.
    pub fn inc_nonce(&mut self, caller: &T::AccountId)
        requires
            old(self).nonce_of(caller@) < T::Nonce::max_value(),
        ensures
            final(self).nonces() == old(self).nonces().insert(
                caller@,
                old(self).nonce_of(caller@) + 1,
            ),
            final(self).height() == old(self).height(),
    {
        let nonce: T::Nonce = self.nonce(caller);
        let new_nonce = nonce.plus(T::Nonce::one());
        self.nonce.insert(caller.duplicate(), new_nonce);
    }
}

} // verus!
