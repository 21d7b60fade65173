//! Accounting and risk core of a pooled lending protocol.
//!
//! Per-asset pools ("banks") accept deposits, issue borrows against
//! collateral, accrue compounding interest through a utilization-sensitive
//! rate curve, and support liquidation of undercollateralized positions,
//! flash loans, and parameter governance.
//!
//! The engine works on plain values (integer amounts, shares, basis points
//! and unix timestamps). Token transfers, oracle reads, clock access and
//! caller authentication are collaborators of the surrounding host: they
//! hand the engine amounts, prices and timestamps and perform the transfers
//! the engine decides on. Every operation either succeeds, or fails with a
//! `LendingError` and leaves all state exactly as it was.

pub mod admin;
pub mod bank;
pub mod error;
pub mod flashloan;
pub mod governance;
pub mod interest;
pub mod laws;
pub mod ledger;
pub mod liquidate;
pub mod user;

pub use error::LendingError;
