//! A small replicated ledger: signed transactions, blocks linked by hash with a
//! Merkle root over their transaction ids, account balances, and a key/value
//! contract store driven by transactions.

pub mod encoding;
pub mod store;
pub mod vm;
pub mod wallet;
pub mod chain;
pub mod gossip;
