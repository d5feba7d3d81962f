//! Accounting for a ledger's transaction history: the economic effect of a
//! transaction on one account, and ownership-weighted earnings summaries.
pub mod identity;
pub mod effect;
pub mod laws;
pub mod earnings;
pub mod ledger_row;
pub mod retry;
