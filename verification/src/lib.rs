//! Watches decoded instructions of a concentrated-liquidity market-maker
//! program, filters them against a configured set of liquidity-provider
//! wallets, classifies each instruction into a domain event, resolves
//! token display metadata through deterministically derived on-chain
//! accounts, and builds the outbound notification for notable swaps.

pub mod address;
pub mod classifier;
pub mod instruction;
pub mod metadata;
pub mod notify;
pub mod watchlist;
