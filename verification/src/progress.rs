//! Per-consumer progress cursors: the last processed offset of each
//! independent consumer of the event log.

use vstd::prelude::*;
use crate::event_log::Offset;
use crate::persistence::{InMemoryConnection, InMemoryTransaction};
use crate::store::KeyValueStore;

verus! {

/// Identifier of one independent consumer of the log; each has its own cursor.
pub type ServiceId = String;

/// A persistent store that keeps track of the last processed event of each
/// consumer. Monotonicity of the cursor is a caller contract, not enforced
/// here: `store_tr` overwrites unconditionally. The transactional variants
/// must run inside the same transaction as the domain writes they pair with.
pub trait ProgressTracker: Sized {
    /// The cursors held, one per service.
    spec fn cursors(&self) -> Map<Seq<char>, Offset>;

    /// The last stored offset for `id`, or none if `id` never committed progress.
    fn load_tr(&self, transaction: &mut InMemoryTransaction, id: &ServiceId) -> (r: Option<
        Offset,
    >)
        ensures
            r == if self.cursors().contains_key(id@) {
                Some(self.cursors()[id@])
            } else {
                None::<Offset>
            },
    ;

    /// Overwrite the cursor of `id`.
    fn store_tr(&mut self, transaction: &mut InMemoryTransaction, id: &ServiceId, offset: Offset)
        ensures
            final(self).cursors() == old(self).cursors().insert(id@, offset),
    ;

    /// Like `load_tr`, in a one-operation transaction of its own.
    fn load(&self, conn: &mut InMemoryConnection, id: &ServiceId) -> (r: Option<Offset>)
        ensures
            r == if self.cursors().contains_key(id@) {
                Some(self.cursors()[id@])
            } else {
                None::<Offset>
            },
    ;
}

/// The in-memory progress tracker.
pub struct InMemoryProgressTracker {
    store: KeyValueStore<Offset>,
}

impl View for InMemoryProgressTracker {
    type V = Map<Seq<char>, Offset>;

    closed spec fn view(&self) -> Map<Seq<char>, Offset> {
        self.store@
    }
}

impl InMemoryProgressTracker {
    pub fn new() -> (r: Self)
        ensures
            r@ == Map::<Seq<char>, Offset>::empty(),
    {
        InMemoryProgressTracker { store: KeyValueStore::new() }
    }
}

impl ProgressTracker for InMemoryProgressTracker {
    open spec fn cursors(&self) -> Map<Seq<char>, Offset> {
        self@
    }

    fn load_tr(&self, _transaction: &mut InMemoryTransaction, id: &ServiceId) -> (r: Option<
        Offset,
    >) {
        self.store.get(id)
    }

    fn store_tr(&mut self, _transaction: &mut InMemoryTransaction, id: &ServiceId, offset: Offset) {
        self.store.set(id.clone(), offset)
    }

    fn load(&self, _conn: &mut InMemoryConnection, id: &ServiceId) -> (r: Option<Offset>) {
        self.store.get(id)
    }
}

} // verus!
