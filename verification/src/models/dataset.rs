//! The summary of a table: its size and what each column holds.

use vstd::prelude::*;

verus! {

/// What is known of one column without looking at its values.
#[derive(Debug)]
pub struct ColumnInfo {
    /// The column's name.
    pub name: String,
    /// The name of the column's type, as the engine prints it.
    pub dtype: String,
    /// How many values of the column are missing.
    pub null_count: usize,
}

pub struct ColumnInfoView {
    pub name: Seq<char>,
    pub dtype: Seq<char>,
    pub null_count: nat,
}

impl View for ColumnInfo {
    type V = ColumnInfoView;

    open spec fn view(&self) -> ColumnInfoView {
        ColumnInfoView { name: self.name@, dtype: self.dtype@, null_count: self.null_count as nat }
    }
}

impl Clone for ColumnInfo {
    fn clone(&self) -> (copy: Self)
        ensures
            copy@ == self@,
    {
        ColumnInfo {
            name: self.name.clone(),
            dtype: self.dtype.clone(),
            null_count: self.null_count,
        }
    }
}

/// The views of a sequence of column summaries, in order.
pub open spec fn column_views(columns: Seq<ColumnInfo>) -> Seq<ColumnInfoView> {
    Seq::new(columns.len(), |i: int| columns[i]@)
}

/// The summary that stands beside each snapshot.
#[derive(Debug)]
pub struct DatasetInfo {
    /// The identifier of the snapshot that this summary describes.
    pub id: String,
    /// A name to show: a file name for an import, a description otherwise.
    pub name: String,
    /// The number of rows.
    pub rows: usize,
    /// One summary for each column, in the table's order.
    pub columns: Vec<ColumnInfo>,
    /// Where the data was read from; empty when it was computed.
    pub file_path: String,
    /// When the summary was made.
    pub imported_at: String,
}

pub struct DatasetInfoView {
    pub id: Seq<char>,
    pub name: Seq<char>,
    pub rows: nat,
    pub columns: Seq<ColumnInfoView>,
    pub file_path: Seq<char>,
    pub imported_at: Seq<char>,
}

impl View for DatasetInfo {
    type V = DatasetInfoView;

    open spec fn view(&self) -> DatasetInfoView {
        DatasetInfoView {
            id: self.id@,
            name: self.name@,
            rows: self.rows as nat,
            columns: column_views(self.columns@),
            file_path: self.file_path@,
            imported_at: self.imported_at@,
        }
    }
}

/// A copy of a vector of column summaries.
pub fn clone_columns(columns: &Vec<ColumnInfo>) -> (copy: Vec<ColumnInfo>)
    ensures
        column_views(copy@) == column_views(columns@),
{
    let mut copy: Vec<ColumnInfo> = Vec::new();
    let mut i: usize = 0;
    while i < columns.len()
        invariant
            i <= columns.len(),
            copy@.len() == i,
            forall|k: int| 0 <= k < i ==> copy@[k]@ == columns@[k]@,
        decreases columns.len() - i,
    {
        copy.push(columns[i].clone());
        i = i + 1;
    }
    assert(column_views(copy@) =~= column_views(columns@));
    copy
}

impl Clone for DatasetInfo {
    fn clone(&self) -> (copy: Self)
        ensures
            copy@ == self@,
    {
        DatasetInfo {
            id: self.id.clone(),
            name: self.name.clone(),
            rows: self.rows,
            columns: clone_columns(&self.columns),
            file_path: self.file_path.clone(),
            imported_at: self.imported_at.clone(),
        }
    }
}

/// A page of a table for display: the column names and how many rows the
/// whole table has. The cells of the page travel beside it.
#[derive(Debug)]
pub struct PageInfo {
    /// The names of the columns, in the table's order.
    pub columns: Vec<String>,
    /// The row at which the page begins.
    pub start: usize,
    /// The number of rows on the page.
    pub len: usize,
    /// The number of rows of the whole table.
    pub total_rows: usize,
}

/// Where a page of `limit` rows from row `offset` lies in a table of
/// `total` rows: its first row and its length.
pub open spec fn page_of(offset: nat, limit: nat, total: nat) -> (nat, nat) {
    let start = if offset < total {
        offset
    } else {
        total
    };
    let end = if offset + limit < total {
        offset + limit
    } else {
        total
    };
    (start, (end - start) as nat)
}

/// The first row and the length of the page of `limit` rows from row
/// `offset`, cut to the `total` rows that exist.
pub fn page_bounds(offset: usize, limit: usize, total: usize) -> (page: (usize, usize))
    ensures
        (page.0 as nat, page.1 as nat) == page_of(offset as nat, limit as nat, total as nat),
        page.0 + page.1 <= total,
{
    let start = if offset < total {
        offset
    } else {
        total
    };
    let end = if limit < total - start {
        start + limit
    } else {
        total
    };
    (start, end - start)
}

} // verus!
