//! Shared application state handed to every dispatch.

use vstd::prelude::*;

use std::sync::{Arc, RwLock, RwLockReadGuard, RwLockWriteGuard, TryLockError};

verus! {

/// std's `RwLock`, carried opaquely.
#[verifier::external_type_specification]
#[verifier::external_body]
#[verifier::reject_recursive_types(T)]
pub struct ExRwLock<T: ?Sized>(RwLock<T>);

/// std's shared guard of an `RwLock`, carried opaquely.
#[verifier::external_type_specification]
#[verifier::external_body]
#[verifier::reject_recursive_types(T)]
pub struct ExRwLockReadGuard<'a, T: ?Sized>(RwLockReadGuard<'a, T>);

/// std's exclusive guard of an `RwLock`, carried opaquely.
#[verifier::external_type_specification]
#[verifier::external_body]
#[verifier::reject_recursive_types(T)]
pub struct ExRwLockWriteGuard<'a, T: ?Sized + 'a>(RwLockWriteGuard<'a, T>);

/// Relies on std's `RwLock::new`: a lock that is not held, around `value`.
#[verifier::external_body]
fn new_lock<T>(value: T) -> (r: RwLock<T>) {
    RwLock::new(value)
}

/// A cheap, clonable handle to state that every clone shares, read and
/// written under a read-write lock.
#[derive(Clone)]
#[verifier::reject_recursive_types(T)]
pub struct State<T: Send + Sync>(Arc<RwLock<T>>);

impl<T: Send + Sync> State<T> {
    pub fn new(state: T) -> (r: Self) {
        State(Arc::new(new_lock(state)))
    }

    /// Relies on std's `RwLock::try_read`, which never blocks: the shared
    /// guard, or `None` while a writer holds the lock (a callback that reads
    /// state which an outer dispatch is writing). A lock poisoned by a
    /// panicking writer is still read.
    #[verifier::external_body]
    pub fn as_ref(&self) -> Option<RwLockReadGuard<'_, T>> {
        match self.0.try_read() {
            Ok(guard) => Some(guard),
            Err(TryLockError::Poisoned(poisoned)) => Some(poisoned.into_inner()),
            Err(TryLockError::WouldBlock) => None,
        }
    }

    /// Relies on std's `RwLock::try_write`, which never blocks: the
    /// exclusive guard, or `None` while any other guard is held (a re-entrant
    /// write during a dispatch). A poisoned lock is still written.
    #[verifier::external_body]
    pub fn as_mut(&self) -> Option<RwLockWriteGuard<'_, T>> {
        match self.0.try_write() {
            Ok(guard) => Some(guard),
            Err(TryLockError::Poisoned(poisoned)) => Some(poisoned.into_inner()),
            Err(TryLockError::WouldBlock) => None,
        }
    }
}

impl Default for State<()> {
    fn default() -> (r: Self) {
        State::new(())
    }
}

} // verus!
