//! The requests that read the current table.

use crate::data::store::DataStore;
use crate::error::no_data_text;
use crate::models::dataset::{page_bounds, page_of, DatasetInfo, PageInfo};
use crate::snapshot::{column_names, frame_columns, frame_height, names_of, row_count, slice_rows};
use crate::state::{held_store, lock_failed, AppState};
use crate::text::views;
use polars::frame::DataFrame;
use vstd::prelude::*;

verus! {

/// `page` is the page of `limit` rows from row `offset` of a table that
/// has as many rows as the page says: it lies where such a page lies, and
/// it holds as many rows as it says.
pub open spec fn is_page(page: (DataFrame, PageInfo), offset: usize, limit: usize) -> bool {
    &&& (page.1.start as nat, page.1.len as nat) == page_of(
        offset as nat,
        limit as nat,
        page.1.total_rows as nat,
    )
    &&& page.1.start <= i64::MAX ==> frame_height(page.0) == page.1.len
}

/// The page of `limit` rows from row `offset` of a table: the rows
/// themselves, and where the page lies. A page that would begin beyond
/// the table, or reach beyond it, is cut to the rows that exist.
pub fn page_of_table(df: &DataFrame, offset: usize, limit: usize) -> (page: (DataFrame, PageInfo))
    ensures
        (page.1.start as nat, page.1.len as nat) == page_of(
            offset as nat,
            limit as nat,
            frame_height(*df),
        ),
        page.1.total_rows == frame_height(*df),
        views(page.1.columns@) == column_names(frame_columns(*df)),
        is_page(page, offset, limit),
{
    let total_rows = row_count(df);
    let (start, len) = page_bounds(offset, limit, total_rows);
    let rows = if start as u64 <= 0x7fff_ffff_ffff_ffffu64 {
        slice_rows(df, start as i64, len)
    } else {
        slice_rows(df, 0, 0)
    };
    (rows, PageInfo { columns: names_of(df), start, len, total_rows })
}

/// A page of the current table of a store that the caller holds, or the
/// words that say that there is no table.
pub fn current_page_held(store: &DataStore, offset: usize, limit: usize) -> (page: Result<
    (DataFrame, PageInfo),
    String,
>)
    ensures
        match store@.current() {
            Some(entry) => page is Ok && (page->Ok_0.1.start as nat, page->Ok_0.1.len as nat)
                == page_of(offset as nat, limit as nat, frame_height(entry.dataframe))
                && page->Ok_0.1.total_rows == frame_height(entry.dataframe) && views(
                page->Ok_0.1.columns@,
            ) == column_names(frame_columns(entry.dataframe)),
            None => page is Err && page->Err_0@ == no_data_text(),
        },
        page is Ok ==> is_page(page->Ok_0, offset, limit),
{
    match store.get_current() {
        Some(df) => Ok(page_of_table(df, offset, limit)),
        None => Err("没有数据".to_string()),
    }
}

/// A page of the current table: the `limit` rows from row `offset`, cut
/// to the rows that the table has. Refused where the store cannot be
/// acquired or holds no data.
pub fn get_current_page(offset: usize, limit: usize, state: &AppState) -> (page: Result<
    (DataFrame, PageInfo),
    String,
>)
    ensures
        page matches Ok(found) ==> is_page(found, offset, limit),
        page matches Err(message) ==> lock_failed(message@) || message@ == no_data_text(),
{
    let guard = state.acquire()?;
    current_page_held(held_store(&guard), offset, limit)
}

/// A copy of the summary of the current table of a store that the
/// caller holds, if the store has a current table.
pub fn current_info_held(store: &DataStore) -> (info: Option<DatasetInfo>)
    ensures
        match store@.current() {
            Some(entry) => info is Some && info->0@ == entry.metadata,
            None => info is None,
        },
{
    match store.get_current_info() {
        Some(found) => Some(found.clone()),
        None => None,
    }
}

/// The summary of the current table, if there is one. Fails only where
/// the store cannot be acquired.
pub fn get_current_info(state: &AppState) -> (info: Result<Option<DatasetInfo>, String>)
    ensures
        info matches Err(message) ==> lock_failed(message@),
{
    let guard = state.acquire()?;
    Ok(current_info_held(held_store(&guard)))
}

} // verus!
