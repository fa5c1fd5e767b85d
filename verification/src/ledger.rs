//! A ledger as mathematics: the balance of each account, the rule by which
//! a transfer is judged, and what an accepted transfer conserves.

use crate::balances::BalanceError;
use vstd::prelude::*;

verus! {

/// The balance that `ledger` records for `who`: zero where it has no entry.
pub open spec fn balance_in<A>(ledger: Map<A, nat>, who: A) -> nat {
    if ledger.contains_key(who) {
        ledger[who]
    } else {
        0
    }
}

/// Why a transfer of `amount` from `caller` to `to` is refused, if it is:
/// the sender's balance is tested first, then the receiver's room below
/// `max`.
pub open spec fn transfer_error<A>(
    ledger: Map<A, nat>,
    caller: A,
    to: A,
    amount: nat,
    max: nat,
) -> Option<BalanceError<A>> {
    if balance_in(ledger, caller) < amount {
        Some(BalanceError::InsufficientBalance)
    } else if balance_in(ledger, to) + amount > max {
        Some(BalanceError::BalanceOverflow(to))
    } else {
        None
    }
}

/// The ledger after a transfer that is not refused: the sender holds
/// `amount` less and the receiver `amount` more. An account that pays
/// itself holds what it held before.
pub open spec fn transferred<A>(ledger: Map<A, nat>, caller: A, to: A, amount: nat) -> Map<
    A,
    nat,
> {
    if caller == to {
        ledger.insert(caller, balance_in(ledger, caller))
    } else {
        ledger.insert(caller, (balance_in(ledger, caller) - amount) as nat).insert(
            to,
            balance_in(ledger, to) + amount,
        )
    }
}

/// The sum of all balances that a finite ledger records.
pub open spec fn total<A>(ledger: Map<A, nat>) -> nat
    decreases ledger.dom().len(),
{
    if ledger.dom().finite() && ledger.dom().len() > 0 {
        let who = ledger.dom().choose();
        ledger[who] + total(ledger.remove(who))
    } else {
        0
    }
}

/// The total of a finite ledger is the balance of any one of its accounts
/// and the total of the rest.
pub proof fn lemma_total_split<A>(ledger: Map<A, nat>, who: A)
    requires
        ledger.dom().finite(),
        ledger.contains_key(who),
    ensures
        total(ledger) == ledger[who] + total(ledger.remove(who)),
    decreases ledger.dom().len(),
{
    let first = ledger.dom().choose();
    if first != who {
        lemma_total_split(ledger.remove(first), who);
        lemma_total_split(ledger.remove(who), first);
        assert(ledger.remove(first).remove(who) =~= ledger.remove(who).remove(first));
    }
}

/// Writing a balance changes the total by the difference between the new
/// balance and the old.
pub proof fn lemma_total_insert<A>(ledger: Map<A, nat>, who: A, balance: nat)
    requires
        ledger.dom().finite(),
    ensures
        total(ledger.insert(who, balance)) + balance_in(ledger, who) == total(ledger) + balance,
{
    let after = ledger.insert(who, balance);
    lemma_total_split(after, who);
    if ledger.contains_key(who) {
        lemma_total_split(ledger, who);
        assert(after.remove(who) =~= ledger.remove(who));
    } else {
        assert(after.remove(who) =~= ledger);
    }
}

/// A transfer that is not refused conserves: what the sender and the
/// receiver hold together stays the same, whether they are two accounts or
/// one; between two accounts `amount` moves from the one to the other; no
/// third account is touched; and the total of the ledger stays the same.
pub proof fn lemma_transfer_conserves<A>(
    ledger: Map<A, nat>,
    caller: A,
    to: A,
    amount: nat,
    max: nat,
)
    requires
        transfer_error(ledger, caller, to, amount, max) is None,
    ensures
        ({
            let after = transferred(ledger, caller, to, amount);
            &&& balance_in(after, caller) + balance_in(after, to) == balance_in(ledger, caller)
                + balance_in(ledger, to)
            &&& caller != to ==> balance_in(after, caller) == balance_in(ledger, caller) - amount
            &&& caller != to ==> balance_in(after, to) == balance_in(ledger, to) + amount
            &&& caller == to ==> balance_in(after, caller) == balance_in(ledger, caller)
            &&& forall|other: A|
                other != caller && other != to ==> balance_in(after, other) == balance_in(
                    ledger,
                    other,
                )
            &&& ledger.dom().finite() ==> after.dom().finite() && total(after) == total(ledger)
        }),
{
    if ledger.dom().finite() {
        if caller == to {
            lemma_total_insert(ledger, caller, balance_in(ledger, caller));
        } else {
            let debited = ledger.insert(caller, (balance_in(ledger, caller) - amount) as nat);
            lemma_total_insert(ledger, caller, (balance_in(ledger, caller) - amount) as nat);
            lemma_total_insert(debited, to, balance_in(ledger, to) + amount);
        }
    }
}

} // verus!
