//! What an import does once its file has been read into a table.

use crate::commands::operations::fresh_id;
use crate::data::loader::{dataset_info_with, listed_name, now_text, summary_of};
use crate::data::model::StoreView;
use crate::data::store::DataStore;
use crate::models::dataset::DatasetInfo;
use crate::models::history::{HistoryEntry, HistoryEntryView, OperationType, OperationView};
use crate::state::{held_store_mut, lock_failed, AppState};
use crate::text::{file_name_of, opt_view};
use polars::frame::DataFrame;
use vstd::prelude::*;

verus! {

/// The entry that records the import of `df` from `file_path`, where
/// `file_name` is the last component of the path if it has one.
pub open spec fn import_entry_of(
    df: DataFrame,
    file_path: Seq<char>,
    file_name: Option<Seq<char>>,
    id: Seq<char>,
    timestamp: Seq<char>,
    imported_at: Seq<char>,
) -> HistoryEntryView {
    HistoryEntryView {
        id,
        operation: OperationView::Import { file_path },
        dataframe: df,
        metadata: summary_of(df, id, listed_name(file_name), file_path, imported_at),
        timestamp,
        description: (OperationView::Import { file_path }).description(file_name),
    }
}

/// Puts the entry of an import together from its parts. The second
/// result is a copy of the entry's summary.
pub fn build_import_entry(
    file_path: String,
    df: DataFrame,
    file_name: Option<&str>,
    id: String,
    timestamp: String,
    imported_at: String,
) -> (made: (HistoryEntry, DatasetInfo))
    ensures
        made.0@ == import_entry_of(
            df,
            file_path@,
            crate::text::opt_str_view(file_name),
            id@,
            timestamp@,
            imported_at@,
        ),
        made.1@ == made.0@.metadata,
{
    let info = dataset_info_with(id.as_str(), file_path.as_str(), &df, file_name, imported_at);
    let operation = OperationType::Import { file_path };
    let description = operation.description_with(file_name);
    let entry = HistoryEntry {
        id,
        operation,
        dataframe: df,
        metadata: info.clone(),
        timestamp,
        description,
    };
    (entry, info)
}

/// `made` is an entry for the import of `df` from `file_path` under some
/// identifier, at some time, named by some reading of the path.
pub open spec fn records_import(made: HistoryEntryView, df: DataFrame, file_path: Seq<char>) -> bool {
    exists|
        file_name: Option<Seq<char>>,
        id: Seq<char>,
        timestamp: Seq<char>,
        imported_at: Seq<char>,
    |
        made == import_entry_of(df, file_path, file_name, id, timestamp, imported_at)
}

/// Makes the entry for a table that was just read from `file_path`,
/// under a fresh identifier and at the present moment.
pub fn create_import_entry(file_path: String, df: DataFrame) -> (made: (HistoryEntry, DatasetInfo))
    ensures
        records_import(made.0@, df, file_path@),
        made.1@ == made.0@.metadata,
{
    let id = fresh_id();
    let timestamp = now_text();
    let name = file_name_of(file_path.as_str());
    let imported_at = now_text();
    let ghost parts = (id@, timestamp@, imported_at@, file_path@);
    let made = match &name {
        Some(n) => build_import_entry(file_path, df, Some(n.as_str()), id, timestamp, imported_at),
        None => build_import_entry(file_path, df, None, id, timestamp, imported_at),
    };
    assert(made.0@ == import_entry_of(df, parts.3, opt_view(name), parts.0, parts.1, parts.2));
    made
}

/// Starts a store that the caller holds anew with `entry` as its only
/// entry.
pub fn install_held(store: &mut DataStore, entry: HistoryEntry)
    ensures
        final(store)@ == StoreView::single(entry@, old(store)@.max_depth),
        final(store)@ == old(store)@.clear().push(entry@),
{
    store.clear();
    store.push_operation(entry);
    assert(store@.entries =~= seq![entry@]);
}

/// What an import does with the table that it read from `file_path`:
/// the history starts anew with the import as its only entry, and the
/// table's summary is handed back. Fails only where the store cannot be
/// acquired.
pub fn import_table(file_path: String, df: DataFrame, state: &AppState) -> (info: Result<
    DatasetInfo,
    String,
>)
    ensures
        match info {
            Ok(summary) => exists|entry: HistoryEntryView|
                records_import(entry, df, file_path@) && summary@ == entry.metadata,
            Err(message) => lock_failed(message@),
        },
{
    let made = create_import_entry(file_path, df);
    let (entry, summary) = made;
    let mut guard = state.acquire()?;
    install_held(held_store_mut(&mut guard), entry);
    Ok(summary)
}

} // verus!
