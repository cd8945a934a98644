//! Persistence abstraction: connections and scoped transactions.
//!
//! The in-memory backend's transactions always succeed and provide no real
//! isolation; the connection and transaction types exist so that every store
//! keeps the shape of the transactional protocol: reads and writes that must
//! commit or roll back together all take the same transaction value.

use vstd::prelude::*;

verus! {

/// A connection to the in-memory backend.
pub struct InMemoryConnection;

/// A scoped transaction on the in-memory backend.
pub struct InMemoryTransaction;

impl InMemoryConnection {
    pub fn new() -> (r: Self) {
        InMemoryConnection
    }

    /// Open a transaction scope; in memory this never fails.
    pub fn start_transaction(&mut self) -> (r: InMemoryTransaction) {
        InMemoryTransaction
    }
}

} // verus!
