//! A ledger of account balances in a single unit, with a faucet grant,
//! transfers between accounts, and a total supply that always equals the sum
//! of the balances.

pub mod laws;
pub mod ledger;
pub mod model;
pub mod rules;

pub use ledger::Module;
pub use model::{AccountId, Balance, Call, Error, Event, Ledger};
pub use rules::{check_grant, check_transfer};
