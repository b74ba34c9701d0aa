//! The one store of a session and the exclusive handle through which
//! every caller reaches it.

use crate::data::store::DataStore;
use crate::error::lock_failure_text;
use crate::text::concat2;
use std::sync::{Arc, Mutex, MutexGuard};
use vstd::prelude::*;

verus! {

/// The mutual-exclusion lock of `std::sync`.
#[verifier::external_type_specification]
#[verifier::external_body]
#[verifier::reject_recursive_types(T)]
pub struct ExMutex<T: ?Sized>(Mutex<T>);

/// The proof of holding a `Mutex`; the lock is released when it is dropped.
#[verifier::external_type_specification]
#[verifier::external_body]
#[verifier::reject_recursive_types(T)]
pub struct ExMutexGuard<'a, T: ?Sized + 'a>(MutexGuard<'a, T>);

/// The handle that callers share: at most one of them holds the store
/// at a time.
pub type SharedDataStore = Arc<Mutex<DataStore>>;

/// What every request handler is given.
pub struct AppState {
    /// The store of the session.
    pub data_store: SharedDataStore,
}

/// `Mutex::new`: a lock that guards `store`.
#[verifier::external_body]
fn guard_store(store: DataStore) -> (lock: Mutex<DataStore>) {
    Mutex::new(store)
}

/// `Mutex::lock`: waits until no other caller holds the lock. Where a
/// holder ended abnormally the lock is poisoned and the call fails; the
/// failure is handed on as the text of the `PoisonError`.
#[verifier::external_body]
fn lock_store<'a>(lock: &'a Mutex<DataStore>) -> (held: Result<MutexGuard<'a, DataStore>, String>) {
    lock.lock().map_err(|e| e.to_string())
}

/// `Deref::deref` of a `MutexGuard`: the store that the lock guards.
/// Other holders may have changed it since it was last seen, so nothing
/// is claimed of it but what holds of every store.
#[verifier::external_body]
pub(crate) fn held_store<'a, 'b>(guard: &'b MutexGuard<'a, DataStore>) -> (store: &'b DataStore) {
    guard
}

/// `DerefMut::deref_mut` of a `MutexGuard`: the store that the lock
/// guards, to be changed.
#[verifier::external_body]
pub(crate) fn held_store_mut<'a, 'b>(guard: &'b mut MutexGuard<'a, DataStore>) -> (store:
    &'b mut DataStore) {
    guard
}

/// A message tells of a handle that could not be acquired.
pub open spec fn lock_failed(message: Seq<char>) -> bool {
    exists|cause: Seq<char>| message == lock_failure_text(cause)
}

/// What an acquisition hands on: the guard where the lock gave one, and
/// otherwise the message of a failed acquisition with what the lock said.
pub fn acquired<'a>(locked: Result<MutexGuard<'a, DataStore>, String>) -> (held: Result<
    MutexGuard<'a, DataStore>,
    String,
>)
    ensures
        match locked {
            Ok(guard) => held is Ok && held->Ok_0 == guard,
            Err(cause) => held is Err && held->Err_0@ == lock_failure_text(cause@),
        },
{
    match locked {
        Ok(guard) => Ok(guard),
        Err(cause) => Err(concat2("Failed to lock data store: ", cause.as_str())),
    }
}

impl AppState {
    /// A state whose store is empty and has the default depth.
    pub fn new() -> (state: Self) {
        AppState { data_store: Arc::new(guard_store(DataStore::new())) }
    }

    /// A state around the given store.
    pub fn with_store(store: DataStore) -> (state: Self) {
        AppState { data_store: Arc::new(guard_store(store)) }
    }

    /// Acquires the store. Fails, with a message that says so, where the
    /// lock is poisoned.
    pub fn acquire<'a>(&'a self) -> (held: Result<MutexGuard<'a, DataStore>, String>)
        ensures
            held matches Err(message) ==> lock_failed(message@),
    {
        acquired(lock_store(&self.data_store))
    }
}

} // verus!
