//! The requests that read the history or move through it.

use crate::data::store::DataStore;
use crate::error::{
    at_earliest_text, at_latest_text, empty_history_text, entry_not_found_prefix, no_data_text,
    said, tells, ErrorKind,
};
use crate::models::history::HistoryEntryInfo;
use crate::state::{held_store, held_store_mut, lock_failed, AppState};
use vstd::prelude::*;

verus! {

/// The list of the history, oldest entry first. Fails only where the
/// store cannot be acquired.
pub fn get_history(state: &AppState) -> (list: Result<Vec<HistoryEntryInfo>, String>)
    ensures
        list matches Err(message) ==> lock_failed(message@),
{
    let guard = state.acquire()?;
    let store = held_store(&guard);
    Ok(store.get_history())
}

/// The place of the current entry. Fails only where the store cannot be
/// acquired.
pub fn get_current_index(state: &AppState) -> (index: Result<Option<usize>, String>)
    ensures
        index matches Err(message) ==> lock_failed(message@),
{
    let guard = state.acquire()?;
    let store = held_store(&guard);
    Ok(store.get_current_index())
}

/// One step back on a store that the caller holds. A refusal leaves the
/// store as it was and is told in the words of the refusal.
pub fn undo_held(store: &mut DataStore) -> (done: Result<(), String>)
    ensures
        match old(store)@.undo() {
            Ok(next) => done is Ok && final(store)@ == next,
            Err(kind) => final(store)@ == old(store)@ && said(
                done,
                kind,
                if kind == ErrorKind::NoData {
                    no_data_text()
                } else {
                    at_earliest_text()
                },
            ),
        },
{
    match store.undo() {
        Ok(()) => Ok(()),
        Err(e) => Err(e.refusal()),
    }
}

/// One step forward on a store that the caller holds. A refusal leaves
/// the store as it was and is told in the words of the refusal.
pub fn redo_held(store: &mut DataStore) -> (done: Result<(), String>)
    ensures
        match old(store)@.redo() {
            Ok(next) => done is Ok && final(store)@ == next,
            Err(kind) => final(store)@ == old(store)@ && said(
                done,
                kind,
                if kind == ErrorKind::NoData {
                    no_data_text()
                } else {
                    at_latest_text()
                },
            ),
        },
{
    match store.redo() {
        Ok(()) => Ok(()),
        Err(e) => Err(e.refusal()),
    }
}

/// A jump on a store that the caller holds. A refusal leaves the store
/// as it was and names the identifier that was not found.
pub fn jump_held(store: &mut DataStore, entry_id: &str) -> (done: Result<(), String>)
    ensures
        match old(store)@.jump_to(entry_id@) {
            Ok(next) => done is Ok && final(store)@ == next,
            Err(kind) => final(store)@ == old(store)@ && said(
                done,
                kind,
                entry_not_found_prefix() + entry_id@,
            ),
        },
{
    match store.jump_to(entry_id) {
        Ok(()) => Ok(()),
        Err(e) => Err(e.refusal()),
    }
}

/// A reset on a store that the caller holds. A refusal leaves the store
/// as it was.
pub fn reset_held(store: &mut DataStore) -> (done: Result<(), String>)
    ensures
        match old(store)@.reset_to_initial() {
            Ok(next) => done is Ok && final(store)@ == next,
            Err(kind) => final(store)@ == old(store)@ && said(done, kind, empty_history_text()),
        },
{
    match store.reset_to_initial() {
        Ok(()) => Ok(()),
        Err(e) => Err(e.refusal()),
    }
}

/// One step back. Refused where the store cannot be acquired, holds no
/// data, or stands at its earliest entry.
pub fn undo_operation(state: &AppState) -> (done: Result<(), String>)
    ensures
        done matches Err(message) ==> {
            ||| lock_failed(message@)
            ||| tells(message@, ErrorKind::NoData, no_data_text())
            ||| tells(message@, ErrorKind::AtBoundary, at_earliest_text())
        },
{
    let mut guard = state.acquire()?;
    undo_held(held_store_mut(&mut guard))
}

/// One step forward. Refused where the store cannot be acquired, holds
/// no data, or stands at its latest entry.
pub fn redo_operation(state: &AppState) -> (done: Result<(), String>)
    ensures
        done matches Err(message) ==> {
            ||| lock_failed(message@)
            ||| tells(message@, ErrorKind::NoData, no_data_text())
            ||| tells(message@, ErrorKind::AtBoundary, at_latest_text())
        },
{
    let mut guard = state.acquire()?;
    redo_held(held_store_mut(&mut guard))
}

/// A jump to the entry that carries `entry_id`. Refused where the store
/// cannot be acquired or no entry carries the identifier.
pub fn jump_to_history(entry_id: String, state: &AppState) -> (done: Result<(), String>)
    ensures
        done matches Err(message) ==> {
            ||| lock_failed(message@)
            ||| tells(
                message@,
                ErrorKind::EntryNotFound,
                entry_not_found_prefix() + entry_id@,
            )
        },
{
    let mut guard = state.acquire()?;
    jump_held(held_store_mut(&mut guard), entry_id.as_str())
}

/// Whether an undo would succeed on the store as it stands. Fails only
/// where the store cannot be acquired.
pub fn can_undo(state: &AppState) -> (possible: Result<bool, String>)
    ensures
        possible matches Err(message) ==> lock_failed(message@),
{
    let guard = state.acquire()?;
    let store = held_store(&guard);
    Ok(store.can_undo())
}

/// Whether a redo would succeed on the store as it stands. Fails only
/// where the store cannot be acquired.
pub fn can_redo(state: &AppState) -> (possible: Result<bool, String>)
    ensures
        possible matches Err(message) ==> lock_failed(message@),
{
    let guard = state.acquire()?;
    let store = held_store(&guard);
    Ok(store.can_redo())
}

/// Back to the earliest entry, which alone is kept. Refused where the
/// store cannot be acquired or holds no entry.
pub fn reset_to_initial(state: &AppState) -> (done: Result<(), String>)
    ensures
        done matches Err(message) ==> {
            ||| lock_failed(message@)
            ||| tells(message@, ErrorKind::EmptyHistory, empty_history_text())
        },
{
    let mut guard = state.acquire()?;
    reset_held(held_store_mut(&mut guard))
}

} // verus!
