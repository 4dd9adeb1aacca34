//! An in-memory ledger of user accounts: validated amounts with checked
//! arithmetic, accounts with an append-only history, and a dispatcher that
//! applies deposits, withdrawals and transfers to a registry of accounts.

pub mod amount;
pub mod account;
pub mod registry;
