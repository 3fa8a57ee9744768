//! Resilient client logic for a remote ledger node: a bounded retry
//! combinator, the search that maps a wall-clock timestamp to a chain height,
//! and the decoding of finalized-header notifications.

pub mod error;
pub mod retry;
pub mod resolver;
pub mod hash;
pub mod header;
pub mod stream;
