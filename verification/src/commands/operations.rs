//! How the result of a transformation becomes the newest entry of the
//! history.

use crate::data::loader::{now_text, summarize, summary_of};
use crate::data::store::DataStore;
use crate::error::{no_data_text, DataAnalystError};
use crate::models::history::{HistoryEntry, HistoryEntryView, OperationType, OperationView};
use crate::state::{held_store, held_store_mut, lock_failed, AppState};
use polars::frame::DataFrame;
use vstd::prelude::*;

verus! {

/// `Uuid::new_v4` of `uuid`, written by its `Display`: a random
/// identifier in the hyphenated form, which has 36 characters. It differs
/// from call to call.
#[verifier::external_body]
pub(crate) fn fresh_id() -> (id: String)
    ensures
        id@.len() == 36,
{
    uuid::Uuid::new_v4().to_string()
}

/// The entry that records `operation` with its result `df`: the summary
/// carries the entry's identifier, is named by the description and has no
/// file path.
pub open spec fn entry_of(
    df: DataFrame,
    operation: OperationView,
    id: Seq<char>,
    timestamp: Seq<char>,
    description: Seq<char>,
    summarized_at: Seq<char>,
) -> HistoryEntryView {
    HistoryEntryView {
        id,
        operation,
        dataframe: df,
        metadata: summary_of(df, id, description, Seq::empty(), summarized_at),
        timestamp,
        description,
    }
}

/// Puts an entry together from its parts.
pub fn build_history_entry(
    df: DataFrame,
    operation: OperationType,
    id: String,
    timestamp: String,
    description: String,
    summarized_at: String,
) -> (entry: HistoryEntry)
    ensures
        entry@ == entry_of(
            df,
            operation@,
            id@,
            timestamp@,
            description@,
            summarized_at@,
        ),
{
    let metadata = summarize(&df, id.as_str(), description.as_str(), "", summarized_at);
    proof {
        reveal_strlit("");
        assert(""@ =~= Seq::<char>::empty());
    }
    HistoryEntry { id, operation, dataframe: df, metadata, timestamp, description }
}

/// `made` is an entry for `operation` and `df` under some identifier, at
/// some time, described in the operation's words.
pub open spec fn records(made: HistoryEntryView, df: DataFrame, operation: OperationView) -> bool {
    exists|
        id: Seq<char>,
        timestamp: Seq<char>,
        file_name: Option<Seq<char>>,
        summarized_at: Seq<char>,
    |
        made == entry_of(
            df,
            operation,
            id,
            timestamp,
            operation.description(file_name),
            summarized_at,
        )
}

/// Makes the entry for an operation that has just produced `df`, under a
/// fresh identifier and at the present moment. Always succeeds.
pub fn create_history_entry(df: DataFrame, operation: OperationType) -> (made: Result<
    HistoryEntry,
    DataAnalystError,
>)
    ensures
        made is Ok,
        records(made->Ok_0@, df, operation@),
{
    let id = fresh_id();
    let timestamp = now_text();
    let description = operation.description();
    let summarized_at = now_text();
    let ghost file_name = choose|file_name: Option<Seq<char>>|
        description@ == operation@.description(file_name);
    let ghost parts = (id@, timestamp@, summarized_at@);
    let entry = build_history_entry(df, operation, id, timestamp, description, summarized_at);
    assert(entry@ == entry_of(
        df,
        operation@,
        parts.0,
        parts.1,
        operation@.description(file_name),
        parts.2,
    ));
    Ok(entry)
}

/// A copy of the current table of a store that the caller holds, or the
/// words that say that there is none.
pub fn current_table_held(store: &DataStore) -> (table: Result<DataFrame, String>)
    ensures
        match store@.current() {
            Some(entry) => table == Ok::<DataFrame, String>(entry.dataframe),
            None => table is Err && table->Err_0@ == no_data_text(),
        },
{
    match store.get_current() {
        Some(df) => Ok(df.clone()),
        None => Err("没有数据".to_string()),
    }
}

/// A copy of the current table. Refused where the store cannot be
/// acquired or holds no data.
pub fn current_table(state: &AppState) -> (table: Result<DataFrame, String>)
    ensures
        table matches Err(message) ==> lock_failed(message@) || message@ == no_data_text(),
{
    let guard = state.acquire()?;
    current_table_held(held_store(&guard))
}

/// Records `operation` with its result `df` as the newest entry of a
/// store that the caller holds.
pub fn record_held(store: &mut DataStore, df: DataFrame, operation: OperationType) -> (done:
    Result<(), String>)
    ensures
        done is Ok,
        exists|entry: HistoryEntryView|
            records(entry, df, operation@) && final(store)@ == old(store)@.push(entry),
{
    match create_history_entry(df, operation) {
        Ok(entry) => {
            let ghost view = entry@;
            store.push_operation(entry);
            assert(records(view, df, operation@) && store@ == old(store)@.push(view));
            Ok(())
        },
        Err(e) => Err(e.message()),
    }
}

/// Records `operation` with its result `df` as the newest entry. Fails
/// only where the store cannot be acquired.
pub fn record_operation(state: &AppState, df: DataFrame, operation: OperationType) -> (done:
    Result<(), String>)
    ensures
        done matches Err(message) ==> lock_failed(message@),
{
    let mut guard = state.acquire()?;
    record_held(held_store_mut(&mut guard), df, operation)
}

} // verus!
