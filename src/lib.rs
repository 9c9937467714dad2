//! Route dispatch, position sizing and the profit/loss ledger of a
//! multi-venue arbitrage executor. Venue swaps, balance reads and the clock
//! are the host's: the library decides, the host performs.

pub mod config;
pub mod cycle;
pub mod error;
pub mod gate;
pub mod instruction;
pub mod path;
pub mod pricing;
pub mod processor;
pub mod sizing;
pub mod state;
pub mod venue;
