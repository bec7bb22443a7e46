//! A minimal on-chain counter ledger: two independent, monotonically
//! increasing 64-bit counters (notifications and payments), kept in an
//! explicitly passed key-value store and moved only by the ledger's own
//! increment operations.

pub mod laws;
pub mod ledger;
pub mod store;
