//! The rules that decide a request from the balances it touches, as
//! functions on plain amounts.

use vstd::prelude::*;
use crate::model::{grant_verdict, transfer_verdict, Balance, Error};

verus! {

/// Whether `value` is zero, as `sp_runtime::traits::Zero::is_zero` tells it.
/// Not proved: that the runtime's zero test on a `u128` answers `true` for
/// zero and `false` for every other value.
#[verifier::external_body]
fn is_zero(value: Balance) -> (r: bool)
    ensures
        r == (value == 0),
{
    sp_runtime::traits::Zero::is_zero(&value)
}

/// Decides a grant to an account that holds `balance`: only an account that
/// holds nothing may be funded.
pub fn check_grant(balance: Balance) -> (r: Result<(), Error>)
    ensures
        r == grant_verdict(balance as nat),
{
    if is_zero(balance) {
        Ok(())
    } else {
        Err(Error::AlreadyFunded)
    }
}

/// Decides a transfer of `amount` by a sender that holds `balance`, and
/// computes what the sender keeps. The amount is tested before the balance.
pub fn check_transfer(balance: Balance, amount: Balance) -> (r: Result<Balance, Error>)
    ensures
        match r {
            Ok(rest) => transfer_verdict(balance as nat, amount as nat) == Ok::<nat, Error>(
                rest as nat,
            ),
            Err(e) => transfer_verdict(balance as nat, amount as nat) == Err::<nat, Error>(e),
        },
{
    if is_zero(amount) {
        Err(Error::ZeroAmount)
    } else if balance >= amount {
        Ok(balance - amount)
    } else {
        Err(Error::InsufficientBalance)
    }
}

} // verus!
