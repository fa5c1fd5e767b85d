//! The balances pallet: each account's balance, and transfers between
//! accounts under checked arithmetic.

use crate::ledger::{balance_in, lemma_transfer_conserves, total, transfer_error, transferred};
use crate::numeric::Amount;
use crate::storage::{Key, StorageMap};
use crate::support::{Dispatch, DispatchResult};
use vstd::prelude::*;

verus! {

/// Why a transfer was refused.
#[derive(Debug)]
pub enum BalanceError<AccountId> {
    /// The sender holds less than the amount.
    InsufficientBalance,
    /// The balance of this account cannot hold the amount on top of what it
    /// holds.
    BalanceOverflow(AccountId),
}

impl<AccountId: View> View for BalanceError<AccountId> {
    type V = BalanceError<AccountId::V>;

    open spec fn view(&self) -> BalanceError<AccountId::V> {
        match self {
            BalanceError::InsufficientBalance => BalanceError::InsufficientBalance,
            BalanceError::BalanceOverflow(who) => BalanceError::BalanceOverflow(who@),
        }
    }
}

/// The message reported for a sender who holds too little.
pub const INSUFFICIENT_BALANCE: &'static str = "insufficient balance";

/// The message reported for a receiver whose balance would overflow.
pub const BALANCE_OVERFLOW: &'static str = "balance overflow";

impl<AccountId> BalanceError<AccountId> {
    /// The message that stands for the error in a dispatch result.
    pub open spec fn message_of(&self) -> Seq<char> {
        match self {
            BalanceError::InsufficientBalance => INSUFFICIENT_BALANCE@,
            BalanceError::BalanceOverflow(_) => BALANCE_OVERFLOW@,
        }
    }

    /// The message that stands for the error in a dispatch result.
    pub fn message(&self) -> (r: &'static str)
        ensures
            r@ == self.message_of(),
    {
        match self {
            BalanceError::InsufficientBalance => INSUFFICIENT_BALANCE,
            BalanceError::BalanceOverflow(_) => BALANCE_OVERFLOW,
        }
    }
}

/// The types that the balances pallet is configured with.
pub trait Config: crate::system::Config {
    /// Measures balances.
    type Balance: Amount + core::fmt::Debug;
}

/// The balances pallet's state.
#[derive(Debug)]
pub struct Pallet<T: Config> {
    balances: StorageMap<T::AccountId, T::Balance>,
}

impl<T: Config> View for Pallet<T> {
    type V = Map<<T::AccountId as View>::V, nat>;

    /// The recorded balances, by account.
    closed spec fn view(&self) -> Map<<T::AccountId as View>::V, nat> {
        self.balances@.map_values(|b: T::Balance| b.value())
    }
}

impl<T: Config> Pallet<T> {
    /// The balance of `who`: the recorded one, or zero where none is recorded.
    pub open spec fn balance_of(&self, who: <T::AccountId as View>::V) -> nat {
        balance_in(self@, who)
    }

    /// The pallet records finitely many balances.
    pub proof fn lemma_finite(&self)
        ensures
            self@.dom().finite(),
    {
        self.balances.lemma_finite();
        assert(self@.dom() =~= self.balances@.dom());
    }

    /// Create a new instance of the balances pallet, with no balance recorded.
    pub fn new() -> (r: Self)
        ensures
            r@ == Map::<<T::AccountId as View>::V, nat>::empty(),
    {
        Self { balances: StorageMap::new() }
    }

    /// Set the balance of account `who` to `amount`.
    pub fn set_balance(&mut self, who: &T::AccountId, amount: T::Balance)
        ensures
            final(self)@ == old(self)@.insert(who@, amount.value()),
    {
        self.balances.insert(who.duplicate(), amount);
    }

    /// Get the balance of account `who`. An account without an entry has
    /// balance zero, and reading it creates none.
    pub fn balance(&self, who: &T::AccountId) -> (r: T::Balance)
        ensures
            r.value() == self.balance_of(who@),
            !self@.contains_key(who@) ==> r.value() == 0,
    {
        match self.balances.get(who) {
            Some(b) => *b,
            None => T::Balance::zero(),
        }
    }

    /// Transfer `amount` from one account to another.
    ///
    /// The sender must hold the amount, and the receiver's balance must
    /// have room for it; both are tested on the balances as they stand
    /// before the transfer. A refused transfer changes nothing. An
    /// accepted one conserves: what the two accounts hold together, and
    /// the total of all balances, stay the same, so an account that pays
    /// itself holds what it held before.
    pub fn transfer(&mut self, caller: &T::AccountId, to: &T::AccountId, amount: &T::Balance) -> (r:
        Result<(), BalanceError<T::AccountId>>)
        ensures
            (match r {
                Ok(_) => None,
                Err(e) => Some(e@),
            }) == transfer_error(
                old(self)@,
                caller@,
                to@,
                amount.value(),
                T::Balance::max_value(),
            ),
            final(self)@ == (if r.is_ok() {
                transferred(old(self)@, caller@, to@, amount.value())
            } else {
                old(self)@
            }),
            final(self).balance_of(caller@) + final(self).balance_of(to@) == old(self).balance_of(
                caller@,
            ) + old(self).balance_of(to@),
            total(final(self)@) == total(old(self)@),
    {
        proof {
            self.lemma_finite();
            if transfer_error(self@, caller@, to@, amount.value(), T::Balance::max_value())
                is None {
                lemma_transfer_conserves(
                    self@,
                    caller@,
                    to@,
                    amount.value(),
                    T::Balance::max_value(),
                );
            }
        }
        let caller_balance = self.balance(caller);
        let to_balance = self.balance(to);

        let new_caller_balance = match caller_balance.checked_sub(amount) {
            Some(rest) => rest,
            None => { return Err(BalanceError::InsufficientBalance); },
        };

        let new_to_balance = match to_balance.checked_add(amount) {
            Some(sum) => sum,
            None => { return Err(BalanceError::BalanceOverflow(to.duplicate())); },
        };

        if caller.same(to) {
            self.set_balance(caller, caller_balance);
        } else {
            self.set_balance(caller, new_caller_balance);
            self.set_balance(to, new_to_balance);
        }

        Ok(())
    }
}

/// The calls that the balances pallet accepts.
#[derive(Debug)]
pub enum Call<T: Config> {
    /// Move `amount` from the caller to `to`.
    Transfer { to: T::AccountId, amount: T::Balance },
}

/// The message with which `call`, made by `caller`, is refused on
/// `ledger`, if it is refused.
pub open spec fn call_error<T: Config>(
    ledger: Map<<T::AccountId as View>::V, nat>,
    caller: <T::AccountId as View>::V,
    call: Call<T>,
) -> Option<Seq<char>> {
    match call {
        Call::Transfer { to, amount } => match transfer_error(
            ledger,
            caller,
            to@,
            amount.value(),
            T::Balance::max_value(),
        ) {
            Some(e) => Some(e.message_of()),
            None => None,
        },
    }
}

/// The ledger after `call`, made by `caller`, was dispatched on `ledger`:
/// a refused call leaves it as it was.
pub open spec fn call_effect<T: Config>(
    ledger: Map<<T::AccountId as View>::V, nat>,
    caller: <T::AccountId as View>::V,
    call: Call<T>,
) -> Map<<T::AccountId as View>::V, nat> {
    match call {
        Call::Transfer { to, amount } => if call_error(ledger, caller, call) is None {
            transferred(ledger, caller, to@, amount.value())
        } else {
            ledger
        },
    }
}

impl<T: Config> Dispatch for Pallet<T> {
    type Caller = T::AccountId;

    type Call = Call<T>;

    /// Executes `call` with `caller` as the sender, and reports a refusal
    /// by its message.
    fn dispatch(&mut self, caller: Self::Caller, call: Self::Call) -> (r: DispatchResult)
        ensures
            (match r {
                Ok(_) => None,
                Err(message) => Some(message@),
            }) == call_error(old(self)@, caller@, call),
            final(self)@ == call_effect(old(self)@, caller@, call),
    {
        match call {
            Call::Transfer { to, amount } => match self.transfer(&caller, &to, &amount) {
                Ok(()) => Ok(()),
                Err(e) => Err(e.message()),
            },
        }
    }
}

} // verus!
