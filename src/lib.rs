//! Daily distribution of a liquidity position's quote-denominated fees to a
//! set of investors, pro rata to their still-locked balances, with the rest
//! routed to a creator. The distribution of one day is split into pages
//! ("cranks") that resume from a persisted cursor.
pub mod constants;
pub mod crank;
pub mod destination;
pub mod distribution;
pub mod error;
pub mod initialize;
pub mod key;
pub mod laws;
pub mod page;
pub mod policy;
pub mod pool;
pub mod progress;
