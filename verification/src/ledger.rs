//! The ledger held in memory.

use vstd::prelude::*;
use std::collections::HashMap;
use crate::laws::{
    law_genesis_conserved, law_grant_conserves, law_transfer_conserves,
    lemma_two_balances_within_sum,
};
use crate::model::{AccountId, Balance, Error, Event, Ledger};
use crate::rules::{check_grant, check_transfer};

verus! {

/// A ledger: the balance of every account that holds funds, the total
/// supply, and the transfers that the host has not collected yet.
pub struct Module {
    balances: HashMap<AccountId, Balance>,
    total_supply: Balance,
    events: Vec<Event>,
}

impl View for Module {
    type V = Ledger;

    /// An account without an entry holds zero.
    closed spec fn view(&self) -> Ledger {
        Ledger {
            balances: Map::total(
                |a: AccountId|
                    if self.balances@.contains_key(a) {
                        self.balances@[a] as nat
                    } else {
                        0nat
                    },
            ),
            total_supply: self.total_supply as nat,
            events: self.events@,
        }
    }
}

impl Module {
    /// The invariant of the ledger: the total supply is the sum of all
    /// balances.
    pub open spec fn wf(&self) -> bool {
        self@.conserved()
    }

    /// A ledger at genesis: no account holds anything.
    pub fn new() -> (r: Module)
        ensures
            r@ == Ledger::genesis(),
            r.wf(),
    {
        let r = Module { balances: HashMap::new(), total_supply: 0, events: Vec::new() };
        proof {
            law_genesis_conserved();
            assert(r@.balances =~= Ledger::genesis().balances);
        }
        r
    }

    /// The balance of `who`; zero for an account that never took part.
    pub fn balance(&self, who: AccountId) -> (r: Balance)
        ensures
            r == self@.balance_of(who),
    {
        broadcast use vstd::std_specs::hash::group_hash_axioms;

        match self.balances.get(&who) {
            Some(held) => *held,
            None => 0,
        }
    }

    /// The number of units in existence.
    pub fn total_supply(&self) -> (r: Balance)
        ensures
            r == self@.total_supply,
    {
        self.total_supply
    }

    /// Funds `caller` with `amount` from the faucet, if `caller` holds
    /// nothing. An accepted grant announces nothing; a refused one changes
    /// nothing. The total supply after the grant has to fit the balance
    /// type.
    pub fn grant(&mut self, caller: AccountId, amount: Balance) -> (r: Result<(), Error>)
        requires
            old(self).wf(),
            old(self)@.balance_of(caller) == 0 ==> old(self)@.total_supply + amount <= Balance::MAX,
        ensures
            final(self).wf(),
            match r {
                Ok(_) => old(self)@.grant(caller, amount) == Ok::<Ledger, Error>(final(self)@),
                Err(e) => old(self)@.grant(caller, amount) == Err::<Ledger, Error>(e)
                    && final(self)@ == old(self)@,
            },
    {
        broadcast use vstd::std_specs::hash::group_hash_axioms;

        match check_grant(self.balance(caller)) {
            Err(e) => Err(e),
            Ok(_) => {
                self.balances.insert(caller, amount);
                self.total_supply = self.total_supply + amount;
                proof {
                    law_grant_conserves(old(self)@, caller, amount);
                    assert(self@.balances =~= old(self)@.balances.insert(caller, amount as nat));
                }
                Ok(())
            },
        }
    }

    /// Moves `amount` from `caller` to `recipient`. A transfer of nothing is
    /// refused with `ZeroAmount`, one of more than `caller` holds with
    /// `InsufficientBalance`, in this order. An accepted transfer is
    /// announced once and leaves the total supply as it was; a refused one
    /// changes and announces nothing.
    pub fn transfer(&mut self, caller: AccountId, recipient: AccountId, amount: Balance) -> (r:
        Result<(), Error>)
        requires
            old(self).wf(),
        ensures
            final(self).wf(),
            match r {
                Ok(_) => old(self)@.transfer(caller, recipient, amount) == Ok::<Ledger, Error>(
                    final(self)@,
                ),
                Err(e) => old(self)@.transfer(caller, recipient, amount) == Err::<Ledger, Error>(e)
                    && final(self)@ == old(self)@,
            },
    {
        broadcast use vstd::std_specs::hash::group_hash_axioms;

        match check_transfer(self.balance(caller), amount) {
            Err(e) => Err(e),
            Ok(rest) => {
                proof {
                    if caller != recipient {
                        lemma_two_balances_within_sum(old(self)@.balances, caller, recipient);
                    }
                }
                self.events.push(Event::Transferred { from: caller, to: recipient, amount });
                self.balances.insert(caller, rest);
                let credited = self.balance(recipient) + amount;
                self.balances.insert(recipient, credited);
                proof {
                    law_transfer_conserves(old(self)@, caller, recipient, amount);
                    let debited = old(self)@.balances.insert(caller, rest as nat);
                    assert(self@.balances =~= debited.insert(recipient, debited[recipient] + amount as nat));
                }
                Ok(())
            },
        }
    }

    /// Hands the transfers announced since the last call to the host, oldest
    /// first, and forgets them. Balances and total supply stay as they are.
    pub fn take_events(&mut self) -> (r: Vec<Event>)
        ensures
            r@ == old(self)@.events,
            final(self)@ == (Ledger { events: Seq::empty(), ..old(self)@ }),
            old(self).wf() ==> final(self).wf(),
    {
        let mut taken = Vec::new();
        std::mem::swap(&mut self.events, &mut taken);
        taken
    }
}

} // verus!
