//! What holds of every ledger: facts about the sum of the balances, and the
//! laws of `grant` and `transfer` that follow from them.

use vstd::prelude::*;
use crate::model::{
    account_space, sum_all, sum_below, AccountId, Balance, Call, Error, Event, Ledger,
};

verus! {

/// Where every account holds zero, the sum is zero.
pub proof fn lemma_sum_of_nothing(n: nat)
    ensures
        sum_below(Map::total(|a: AccountId| 0nat), n) == 0,
    decreases n,
{
    if n > 0 {
        lemma_sum_of_nothing((n - 1) as nat);
    }
}

/// Changing one balance changes the sum by the difference, if the account
/// is among those summed, and not at all otherwise.
pub proof fn lemma_sum_after_insert(balances: Map<AccountId, nat>, who: AccountId, value: nat, n: nat)
    requires
        n <= account_space(),
    ensures
        who < n ==> sum_below(balances.insert(who, value), n) + balances[who] == sum_below(
            balances,
            n,
        ) + value,
        who >= n ==> sum_below(balances.insert(who, value), n) == sum_below(balances, n),
    decreases n,
{
    if n > 0 {
        lemma_sum_after_insert(balances, who, value, (n - 1) as nat);
    }
}

/// No account holds more than the sum of all balances.
pub proof fn lemma_balance_within_sum(balances: Map<AccountId, nat>, who: AccountId)
    ensures
        balances[who] <= sum_all(balances),
{
    lemma_sum_after_insert(balances, who, 0, account_space());
}

/// No two accounts together hold more than the sum of all balances.
pub proof fn lemma_two_balances_within_sum(
    balances: Map<AccountId, nat>,
    one: AccountId,
    other: AccountId,
)
    requires
        one != other,
    ensures
        balances[one] + balances[other] <= sum_all(balances),
{
    lemma_sum_after_insert(balances, one, 0, account_space());
    lemma_balance_within_sum(balances.insert(one, 0), other);
}

/// The ledger at genesis is conserved: no funds, no supply.
pub proof fn law_genesis_conserved()
    ensures
        Ledger::genesis().conserved(),
        forall|a: AccountId| Ledger::genesis().balance_of(a) == 0,
{
    lemma_sum_of_nothing(account_space());
}

/// A grant succeeds exactly when the caller holds nothing. It then leaves
/// the caller with the amount granted, every other balance as it was, and
/// the total supply larger by exactly that amount; and it announces
/// nothing. A refused grant fails with `AlreadyFunded`.
pub proof fn law_grant_eligibility(before: Ledger, caller: AccountId, amount: Balance)
    ensures
        before.grant(caller, amount) is Ok <==> before.balance_of(caller) == 0,
        before.grant(caller, amount) is Err ==> before.grant(caller, amount) == Err::<Ledger, Error>(
            Error::AlreadyFunded,
        ),
        before.grant(caller, amount) matches Ok(after) ==> {
            &&& after.balance_of(caller) == amount
            &&& after.total_supply == before.total_supply + amount
            &&& after.events == before.events
            &&& forall|a: AccountId| a != caller ==> after.balance_of(a) == before.balance_of(a)
        },
{
}

/// A grant keeps the total supply equal to the sum of the balances.
pub proof fn law_grant_conserves(before: Ledger, caller: AccountId, amount: Balance)
    requires
        before.conserved(),
    ensures
        before.grant(caller, amount) matches Ok(after) ==> after.conserved(),
{
    lemma_sum_after_insert(before.balances, caller, amount as nat, account_space());
}

/// A transfer succeeds exactly when the amount is not zero and the caller
/// holds at least that much. Of the two rules the amount is tested first.
pub proof fn law_transfer_verdict(before: Ledger, caller: AccountId, recipient: AccountId, amount: Balance)
    ensures
        before.transfer(caller, recipient, amount) is Ok <==> 0 < amount <= before.balance_of(caller),
        amount == 0 ==> before.transfer(caller, recipient, amount) == Err::<Ledger, Error>(
            Error::ZeroAmount,
        ),
        before.balance_of(caller) < amount ==> before.transfer(caller, recipient, amount) == Err::<
            Ledger,
            Error,
        >(Error::InsufficientBalance),
{
}

/// A transfer between two different accounts leaves the total supply as
/// it was, takes the amount from the sender, gives it to the recipient,
/// touches no other balance, and announces itself once.
pub proof fn law_transfer_moves_funds(
    before: Ledger,
    caller: AccountId,
    recipient: AccountId,
    amount: Balance,
)
    requires
        caller != recipient,
    ensures
        before.transfer(caller, recipient, amount) matches Ok(after) ==> {
            &&& after.total_supply == before.total_supply
            &&& after.balance_of(caller) == before.balance_of(caller) - amount
            &&& after.balance_of(recipient) == before.balance_of(recipient) + amount
            &&& forall|a: AccountId|
                a != caller && a != recipient ==> after.balance_of(a) == before.balance_of(a)
            &&& after.events == before.events.push(
                Event::Transferred { from: caller, to: recipient, amount },
            )
        },
{
}

/// A transfer to oneself of an amount that one holds succeeds and changes
/// neither a balance nor the total supply.
pub proof fn law_self_transfer(before: Ledger, who: AccountId, amount: Balance)
    requires
        0 < amount <= before.balance_of(who),
    ensures
        before.transfer(who, who, amount) matches Ok(after) && {
            &&& after.total_supply == before.total_supply
            &&& forall|a: AccountId| after.balance_of(a) == before.balance_of(a)
        },
{
}

/// A transfer keeps the total supply equal to the sum of the balances.
pub proof fn law_transfer_conserves(
    before: Ledger,
    caller: AccountId,
    recipient: AccountId,
    amount: Balance,
)
    requires
        before.conserved(),
    ensures
        before.transfer(caller, recipient, amount) matches Ok(after) ==> after.conserved(),
{
    if before.transfer(caller, recipient, amount) is Ok {
        let rest = (before.balance_of(caller) - amount) as nat;
        let debited = before.balances.insert(caller, rest);
        lemma_sum_after_insert(before.balances, caller, rest, account_space());
        lemma_sum_after_insert(debited, recipient, debited[recipient] + amount as nat, account_space());
    }
}

/// One request, accepted or rejected, keeps the total supply equal to the
/// sum of the balances.
pub proof fn law_step_conserves(before: Ledger, call: Call)
    requires
        before.conserved(),
    ensures
        before.step(call).conserved(),
{
    match call {
        Call::Grant { caller, amount } => law_grant_conserves(before, caller, amount),
        Call::Transfer { caller, recipient, amount } => law_transfer_conserves(
            before,
            caller,
            recipient,
            amount,
        ),
    }
}

/// Conservation: after any sequence of requests served from genesis, the
/// total supply equals the sum of all balances, no balance is negative, and
/// none exceeds the total supply.
pub proof fn law_conservation(calls: Seq<Call>)
    ensures
        Ledger::genesis().run(calls).conserved(),
        forall|a: AccountId|
            {
                let held = #[trigger] Ledger::genesis().run(calls).balance_of(a);
                0 <= held <= Ledger::genesis().run(calls).total_supply
            },
    decreases calls.len(),
{
    if calls.len() == 0 {
        law_genesis_conserved();
    } else {
        law_conservation(calls.drop_last());
        law_step_conserves(Ledger::genesis().run(calls.drop_last()), calls.last());
    }
    let reached = Ledger::genesis().run(calls);
    assert forall|a: AccountId| #[trigger] reached.balance_of(a) <= reached.total_supply by {
        lemma_balance_within_sum(reached.balances, a);
    }
}

} // verus!
