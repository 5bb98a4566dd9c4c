//! Ledger of a prediction market: the market's life cycle, the pricing of
//! trades against pooled collateral, and the settlement of positions.

pub mod accounts;
pub mod claims;
pub mod error;
pub mod keys;
pub mod laws;
pub mod market;
pub mod pricing;
pub mod settlement;
pub mod state;
pub mod trading;
