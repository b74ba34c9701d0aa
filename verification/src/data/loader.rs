//! The summary of a table that was read from a file.

use crate::error::{DataAnalystError, ErrorView};
use crate::models::dataset::{DatasetInfo, DatasetInfoView};
use crate::snapshot::{column_summaries, frame_columns, frame_height, row_count, summary_columns};
use crate::text::{concat2, decimal, decimal_text, file_name_of, opt_view, views};
use polars::frame::DataFrame;
use vstd::prelude::*;

verus! {

/// `Utc::now` of `chrono`, written by `DateTime::to_rfc3339`: the present
/// moment as text. It differs from call to call, so nothing is claimed of
/// it. The clock must not stand before 1970.
#[verifier::external_body]
pub(crate) fn now_text() -> (now: String) {
    chrono::Utc::now().to_rfc3339()
}

/// The name under which a dataset is listed: the file's name, or a word
/// for a path without one.
pub open spec fn listed_name(file_name: Option<Seq<char>>) -> Seq<char> {
    match file_name {
        Some(name) => name,
        None => "unknown"@,
    }
}

/// The summary of `df` under the given identifier, name, path and time.
pub open spec fn summary_of(
    df: DataFrame,
    id: Seq<char>,
    name: Seq<char>,
    file_path: Seq<char>,
    imported_at: Seq<char>,
) -> DatasetInfoView {
    DatasetInfoView {
        id,
        name,
        rows: frame_height(df),
        columns: summary_columns(frame_columns(df)),
        file_path,
        imported_at,
    }
}

/// Summarises `df`: its rows and columns as the table holds them, the
/// other fields as given.
pub fn summarize(df: &DataFrame, id: &str, name: &str, file_path: &str, imported_at: String) -> (info:
    DatasetInfo)
    ensures
        info@ == summary_of(*df, id@, name@, file_path@, imported_at@),
{
    DatasetInfo {
        id: id.to_owned(),
        name: name.to_owned(),
        rows: row_count(df),
        columns: column_summaries(df),
        file_path: file_path.to_owned(),
        imported_at,
    }
}

/// The summary of a table read from `file_path`, made at `imported_at`,
/// where `file_name` is the last component of the path if it has one.
pub fn dataset_info_with(
    id: &str,
    file_path: &str,
    df: &DataFrame,
    file_name: Option<&str>,
    imported_at: String,
) -> (info: DatasetInfo)
    ensures
        info@ == summary_of(
            *df,
            id@,
            listed_name(crate::text::opt_str_view(file_name)),
            file_path@,
            imported_at@,
        ),
{
    match file_name {
        Some(name) => summarize(df, id, name, file_path, imported_at),
        None => summarize(df, id, "unknown", file_path, imported_at),
    }
}

/// The summary of a table that was just read from `file_path`. The name
/// is the last component of the path, as the platform tells components
/// apart; the time is the present moment.
pub fn create_dataset_info(id: &str, file_path: &str, df: &DataFrame) -> (info: DatasetInfo)
    ensures
        exists|file_name: Option<Seq<char>>, now: Seq<char>|
            info@ == summary_of(*df, id@, listed_name(file_name), file_path@, now),
{
    let name = file_name_of(file_path);
    let now = now_text();
    let ghost now_view = now@;
    let info = match &name {
        Some(n) => dataset_info_with(id, file_path, df, Some(n.as_str()), now),
        None => dataset_info_with(id, file_path, df, None, now),
    };
    assert(info@ == summary_of(*df, id@, listed_name(opt_view(name)), file_path@, now_view));
    info
}

/// The words that refuse a sheet without cells.
pub open spec fn empty_sheet_text() -> Seq<char> {
    "Empty Excel sheet"@
}

/// Accepts a sheet that has cells: it is not empty and has at least one
/// row and one column.
pub fn check_sheet(is_empty: bool, height: usize, width: usize) -> (checked: Result<
    (),
    DataAnalystError,
>)
    ensures
        !is_empty && height > 0 && width > 0 ==> checked is Ok,
        is_empty || height == 0 || width == 0 ==> checked is Err && checked->Err_0@
            == ErrorView::InvalidDataFormat(empty_sheet_text()),
{
    if is_empty || height == 0 || width == 0 {
        Err(DataAnalystError::InvalidDataFormat("Empty Excel sheet".to_string()))
    } else {
        Ok(())
    }
}

/// The name of the column at place `col` of a sheet: the text of its
/// first cell, or a name made of its number, counted from one.
pub open spec fn header_name(cell: Option<Seq<char>>, col: nat) -> Seq<char> {
    match cell {
        Some(text) => text,
        None => "Column_"@ + decimal(col + 1),
    }
}

/// The names of the columns of a sheet whose first row holds `cells`.
pub open spec fn header_names(cells: Seq<Option<String>>) -> Seq<Seq<char>> {
    Seq::new(cells.len(), |i: int| header_name(opt_view(cells[i]), i as nat))
}

/// Names the columns of a sheet by its first row; a cell without text
/// gives its column a numbered name.
pub fn sheet_headers(cells: Vec<Option<String>>) -> (headers: Vec<String>)
    ensures
        views(headers@) == header_names(cells@),
{
    let mut headers: Vec<String> = Vec::new();
    let mut i: usize = 0;
    while i < cells.len()
        invariant
            i <= cells.len(),
            headers@.len() == i,
            forall|k: int|
                0 <= k < i ==> (#[trigger] headers@[k])@ == header_name(
                    opt_view(cells@[k]),
                    k as nat,
                ),
        decreases cells.len() - i,
    {
        let name = match &cells[i] {
            Some(text) => text.clone(),
            None => concat2("Column_", decimal_text(i + 1).as_str()),
        };
        headers.push(name);
        i = i + 1;
    }
    assert(views(headers@) =~= header_names(cells@));
    headers
}

} // verus!
