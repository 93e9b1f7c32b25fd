//! A gold-backed token ledger: customer accounts that hold rupees and gold tokens, a
//! physical vault that backs the token supply, a market price for gold, and an audit
//! trail of every trade.
//!
//! - `decimal`: decimal amounts and their arithmetic, computed by `rust_decimal`.
//! - `time`: instants read from the clock and written out by `chrono`.
//! - `models`: accounts, the bank that files them by name, transactions, the market.
//! - `protocol`: buying, selling and transferring tokens, replenishing the vault, the
//!   oracle and yield ticks, and the audit, with the ledger's laws.
//! - `report`: the audit report as an HTML page.
pub mod decimal;
pub mod time;
pub mod models;
pub mod protocol;
pub mod report;
