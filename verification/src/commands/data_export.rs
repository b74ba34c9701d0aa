//! The request that forgets everything.

use crate::state::{held_store_mut, lock_failed, AppState};
use vstd::prelude::*;

verus! {

/// Empties the store. Fails only where the store cannot be acquired.
pub fn clear_data(state: &AppState) -> (done: Result<(), String>)
    ensures
        done matches Err(message) ==> lock_failed(message@),
{
    let mut guard = state.acquire()?;
    let store = held_store_mut(&mut guard);
    store.clear();
    Ok(())
}

} // verus!
