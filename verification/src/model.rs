//! The ledger as a mathematical object: a balance for every account, the
//! total supply, and the transfers announced so far.

use vstd::prelude::*;

verus! {

/// Identifies a ledger participant.
pub type AccountId = u64;

/// An amount of the ledger's single unit.
pub type Balance = u128;

/// Why an operation was rejected.
#[derive(Clone, Copy, Debug, PartialEq, Eq, Structural)]
pub enum Error {
    /// A grant was requested by an account that still holds funds.
    AlreadyFunded,
    /// A transfer of nothing was requested.
    ZeroAmount,
    /// A transfer was requested for more than the sender holds.
    InsufficientBalance,
}

/// What the ledger announces to its host.
#[derive(Clone, Copy, Debug, PartialEq, Eq, Structural)]
pub enum Event {
    /// `amount` units moved from `from` to `to`.
    Transferred { from: AccountId, to: AccountId, amount: Balance },
}

/// The number of distinct account identifiers.
pub open spec fn account_space() -> nat {
    0x1_0000_0000_0000_0000
}

/// The balances of the accounts `0..n`, added up.
pub open spec fn sum_below(balances: Map<AccountId, nat>, n: nat) -> nat
    decreases n,
{
    if n == 0 {
        0
    } else {
        balances[(n - 1) as AccountId] + sum_below(balances, (n - 1) as nat)
    }
}

/// The balances of all accounts, added up.
pub open spec fn sum_all(balances: Map<AccountId, nat>) -> nat {
    sum_below(balances, account_space())
}

/// The verdict on a grant to an account that holds `balance`.
pub open spec fn grant_verdict(balance: nat) -> Result<(), Error> {
    if balance == 0 {
        Ok(())
    } else {
        Err(Error::AlreadyFunded)
    }
}

/// The verdict on a transfer of `amount` by a sender that holds `balance`:
/// what the sender keeps, or the first rule that the request breaks.
pub open spec fn transfer_verdict(balance: nat, amount: nat) -> Result<nat, Error> {
    if amount == 0 {
        Err(Error::ZeroAmount)
    } else if balance < amount {
        Err(Error::InsufficientBalance)
    } else {
        Ok((balance - amount) as nat)
    }
}

/// The state of a ledger. `balances` has an entry for every account; an
/// account that never took part holds zero.
pub struct Ledger {
    pub balances: Map<AccountId, nat>,
    pub total_supply: nat,
    pub events: Seq<Event>,
}

/// A request that changes the ledger.
pub enum Call {
    /// `caller` asks the faucet for `amount`.
    Grant { caller: AccountId, amount: Balance },
    /// `caller` sends `amount` to `recipient`.
    Transfer { caller: AccountId, recipient: AccountId, amount: Balance },
}

impl Ledger {
    /// The ledger before anything happened.
    pub open spec fn genesis() -> Ledger {
        Ledger {
            balances: Map::total(|a: AccountId| 0nat),
            total_supply: 0,
            events: Seq::empty(),
        }
    }

    /// What `who` holds.
    pub open spec fn balance_of(self, who: AccountId) -> nat {
        self.balances[who]
    }

    /// The total supply is the sum of all balances.
    pub open spec fn conserved(self) -> bool {
        self.total_supply == sum_all(self.balances)
    }

    /// The ledger after `caller` was granted `amount`, or the reason why
    /// the grant is refused.
    pub open spec fn grant(self, caller: AccountId, amount: Balance) -> Result<Ledger, Error> {
        match grant_verdict(self.balance_of(caller)) {
            Err(e) => Err(e),
            Ok(_) => Ok(
                Ledger {
                    balances: self.balances.insert(caller, amount as nat),
                    total_supply: self.total_supply + amount as nat,
                    events: self.events,
                },
            ),
        }
    }

    /// The ledger after `caller` sent `amount` to `recipient`, or the
    /// reason why the transfer is refused. The sender is debited first and
    /// the recipient credited after, so a transfer to oneself changes no
    /// balance.
    pub open spec fn transfer(
        self,
        caller: AccountId,
        recipient: AccountId,
        amount: Balance,
    ) -> Result<Ledger, Error> {
        match transfer_verdict(self.balance_of(caller), amount as nat) {
            Err(e) => Err(e),
            Ok(rest) => {
                let debited = self.balances.insert(caller, rest);
                Ok(
                    Ledger {
                        balances: debited.insert(recipient, debited[recipient] + amount as nat),
                        total_supply: self.total_supply,
                        events: self.events.push(
                            Event::Transferred { from: caller, to: recipient, amount },
                        ),
                    },
                )
            },
        }
    }

    /// The ledger after one request: its successor if the request is
    /// accepted, itself if it is rejected.
    pub open spec fn step(self, call: Call) -> Ledger {
        let outcome = match call {
            Call::Grant { caller, amount } => self.grant(caller, amount),
            Call::Transfer { caller, recipient, amount } => self.transfer(caller, recipient, amount),
        };
        match outcome {
            Ok(next) => next,
            Err(_) => self,
        }
    }

    /// The ledger after a sequence of requests, served in order.
    pub open spec fn run(self, calls: Seq<Call>) -> Ledger
        decreases calls.len(),
    {
        if calls.len() == 0 {
            self
        } else {
            self.run(calls.drop_last()).step(calls.last())
        }
    }
}

} // verus!
