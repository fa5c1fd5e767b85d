//! The proof-of-existence pallet: which account first claimed a piece of
//! content.

use crate::storage::{Key, StorageMap};
use crate::support::{Dispatch, DispatchResult};
use vstd::prelude::*;

verus! {

/// The types that the proof-of-existence pallet is configured with.
pub trait Config: crate::system::Config {
    /// The content that is claimed.
    type Content: Key + core::fmt::Debug;
}

/// The message reported for content that already has an owner.
pub const ALREADY_CLAIMED: &'static str = "this content is already claimed";

/// The proof-of-existence pallet's state.
#[derive(Debug)]
pub struct Pallet<T: Config> {
    claims: StorageMap<T::Content, T::AccountId>,
}

impl<T: Config> View for Pallet<T> {
    type V = Map<<T::Content as View>::V, <T::AccountId as View>::V>;

    /// The owner of each claimed content.
    closed spec fn view(&self) -> Map<<T::Content as View>::V, <T::AccountId as View>::V> {
        self.claims@.map_values(|owner: T::AccountId| owner@)
    }
}

impl<T: Config> Pallet<T> {
    /// Create a new instance of the proof-of-existence pallet, with no claim.
    pub fn new() -> (r: Self)
        ensures
            r@ == Map::<<T::Content as View>::V, <T::AccountId as View>::V>::empty(),
    {
        Self { claims: StorageMap::new() }
    }

    /// Get the owner of `claim`, if it has one.
    pub fn get_claim(&self, claim: &T::Content) -> (r: Option<&T::AccountId>)
        ensures
            match r {
                Some(owner) => self@.contains_key(claim@) && owner@ == self@[claim@],
                None => !self@.contains_key(claim@),
            },
    {
        self.claims.get(claim)
    }

    /// Records `caller` as the owner of `claim`, unless the content already
    /// has an owner.
    pub fn create_claim(&mut self, caller: T::AccountId, claim: T::Content) -> (r: DispatchResult)
        ensures
            (match r {
                Ok(_) => None,
                Err(message) => Some(message@),
            }) == claim_error(old(self)@, claim@),
            final(self)@ == claimed(old(self)@, caller@, claim@),
    {
        if self.claims.get(&claim).is_some() {
            return Err(ALREADY_CLAIMED);
        }
        self.claims.insert(claim, caller);
        Ok(())
    }
}

/// The message with which a claim on `claim` is refused, if it is refused:
/// content is claimed once.
pub open spec fn claim_error<C, A>(claims: Map<C, A>, claim: C) -> Option<Seq<char>> {
    if claims.contains_key(claim) {
        Some(ALREADY_CLAIMED@)
    } else {
        None
    }
}

/// The claims after `caller` asked for `claim`: the first claim stands.
pub open spec fn claimed<C, A>(claims: Map<C, A>, caller: A, claim: C) -> Map<C, A> {
    if claims.contains_key(claim) {
        claims
    } else {
        claims.insert(claim, caller)
    }
}

/// The calls that the proof-of-existence pallet accepts.
#[derive(Debug)]
pub enum Call<T: Config> {
    /// Claim `claim` for the caller.
    CreateClaim { claim: T::Content },
}

/// The message with which `call` is refused on `claims`, if it is refused.
pub open spec fn call_error<T: Config>(
    claims: Map<<T::Content as View>::V, <T::AccountId as View>::V>,
    call: Call<T>,
) -> Option<Seq<char>> {
    match call {
        Call::CreateClaim { claim } => claim_error(claims, claim@),
    }
}

/// The claims after `call`, made by `caller`, was dispatched on `claims`.
pub open spec fn call_effect<T: Config>(
    claims: Map<<T::Content as View>::V, <T::AccountId as View>::V>,
    caller: <T::AccountId as View>::V,
    call: Call<T>,
) -> Map<<T::Content as View>::V, <T::AccountId as View>::V> {
    match call {
        Call::CreateClaim { claim } => claimed(claims, caller, claim@),
    }
}

impl<T: Config> Dispatch for Pallet<T> {
    type Caller = T::AccountId;

    type Call = Call<T>;

    /// Executes `call` with `caller` as the claimant, and reports a
    /// refusal by its message.
    fn dispatch(&mut self, caller: Self::Caller, call: Self::Call) -> (r: DispatchResult)
        ensures
            (match r {
                Ok(_) => None,
                Err(message) => Some(message@),
            }) == call_error(old(self)@, call),
            final(self)@ == call_effect(old(self)@, caller@, call),
    {
        match call {
            Call::CreateClaim { claim } => self.create_claim(caller, claim),
        }
    }
}

} // verus!
