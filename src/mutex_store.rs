use vstd::prelude::*;
use vstd::rwlock::{RwLock, RwLockPredicate};
use std::sync::Arc;
use crate::error::Error;
use crate::store::Store;
use crate::tuple::Tuple;
use crate::vec_store::VecStore;

verus! {

/// The invariant that the lock keeps of the store it guards: the store is
/// well formed.
pub struct WellFormedStore;

impl<S: Store> RwLockPredicate<S> for WellFormedStore {
    open spec fn inv(self, store: S) -> bool {
        store.wf()
    }
}

/// A [MutexStore] is a thread safe Tuple store wrapper that uses another tuple
/// store as internal storage.
///
/// The internal store sits behind a lock in an [Arc], so that every clone of a
/// [MutexStore] reaches the same store. Each operation holds the lock for its
/// whole duration, and the lock is released by the same operation: the store
/// it guards is therefore never left half-updated, and no two operations on the
/// shared store overlap. Each critical section is verified not to panic, so no
/// operation can fail while it holds the lock and leave the lock broken.
#[verifier::reject_recursive_types(S)]
pub struct MutexStore<S: Store> {
    store: Arc<RwLock<S, WellFormedStore>>,
}

impl<S: Store> Clone for MutexStore<S> {
    fn clone(&self) -> (r: Self) {
        MutexStore { store: Arc::clone(&self.store) }
    }
}

impl<S: Store> MutexStore<S> {
    /// A handle to a new shared store that starts out as `store`.
    pub fn new(store: S) -> (r: Self)
        requires
            store.wf(),
    {
        MutexStore { store: Arc::new(RwLock::new(store, Ghost(WellFormedStore))) }
    }
}

impl Default for MutexStore<VecStore> {
    fn default() -> (r: MutexStore<VecStore>) {
        MutexStore::new(VecStore::default())
    }
}

impl<S: Store> Store for MutexStore<S> {
    open spec fn wf(&self) -> bool {
        true
    }

    fn size(&self) -> (r: Result<usize, Error>) {
        let (store, handle) = self.store.acquire_write();
        let r = store.size();
        handle.release_write(store);
        r
    }

    fn write(&mut self, tuple: &Tuple) -> (r: Result<(), Error>) {
        let (mut store, handle) = self.store.acquire_write();
        let r = store.write(tuple);
        handle.release_write(store);
        r
    }

    fn read(&self, query_tuple: &Tuple) -> (r: Result<Option<Tuple>, Error>) {
        let (store, handle) = self.store.acquire_write();
        let r = store.read(query_tuple);
        handle.release_write(store);
        r
    }

    fn take(&mut self, query_tuple: &Tuple) -> (r: Result<Option<Tuple>, Error>) {
        let (mut store, handle) = self.store.acquire_write();
        let r = store.take(query_tuple);
        handle.release_write(store);
        r
    }
}

} // verus!
