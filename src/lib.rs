//! Accounting core of a two-asset constant-product liquidity pool.
//!
//! The curve math works in exact integer arithmetic; the pool operations
//! decide every amount, check every bound and describe the ledger moves
//! (transfers, mints, burns) over a plain-value model of the balances.
pub mod curve;
pub mod deposit;
pub mod error;
pub mod program;
pub mod ledger;
pub mod state;
pub mod swap;
pub mod withdraw;
