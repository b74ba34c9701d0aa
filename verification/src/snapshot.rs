//! The table snapshot type and the few facts the library reads from it.

use crate::models::dataset::{column_views, ColumnInfo, ColumnInfoView};
use polars::frame::DataFrame;
use polars::prelude::Column;
use vstd::prelude::*;

verus! {

/// The columnar table of the `polars` engine. Its inside is not visible to
/// the verifier; the library carries it through and reads it only through
/// the functions of this module.
#[verifier::external_type_specification]
#[verifier::external_body]
pub struct ExDataFrame(DataFrame);

/// One column of a table, as the engine holds it.
#[verifier::external_type_specification]
#[verifier::external_body]
pub struct ExColumn(Column);

/// The engine's error value.
#[verifier::external_type_specification]
#[verifier::external_body]
pub struct ExPolarsError(polars::error::PolarsError);

/// The number of rows of a table.
pub uninterp spec fn frame_height(df: DataFrame) -> nat;

/// What a table holds, column by column: the column's name, the name of
/// its type as the engine prints it for debugging, and the number of
/// missing values.
pub uninterp spec fn frame_columns(df: DataFrame) -> Seq<(Seq<char>, Seq<char>, nat)>;

/// `Clone::clone` of a `DataFrame`, which the engine derives: the copy
/// has the height and the columns of the table it was copied from, so it is the
/// same table.
pub assume_specification[ <DataFrame as Clone>::clone ](df: &DataFrame) -> (copy: DataFrame)
    ensures
        copy == *df,
;

/// `DataFrame::height`: the number of rows.
#[verifier::external_body]
pub(crate) fn height_of(df: &DataFrame) -> (rows: usize)
    ensures
        rows as nat == frame_height(*df),
{
    df.height()
}

/// `DataFrame::width`: the number of columns.
#[verifier::external_body]
pub(crate) fn width_of(df: &DataFrame) -> (columns: usize)
    ensures
        columns as nat == frame_columns(*df).len(),
{
    df.width()
}

/// `Column::name` of the column at place `i` of `DataFrame::get_columns`.
#[verifier::external_body]
pub(crate) fn column_name_at(df: &DataFrame, i: usize) -> (name: String)
    requires
        i < frame_columns(*df).len(),
    ensures
        name@ == frame_columns(*df)[i as int].0,
{
    df.get_columns()[i].name().to_string()
}

/// `Column::dtype` of the column at place `i` of `DataFrame::get_columns`,
/// printed with the type's `Debug`.
#[verifier::external_body]
pub(crate) fn column_type_at(df: &DataFrame, i: usize) -> (dtype: String)
    requires
        i < frame_columns(*df).len(),
    ensures
        dtype@ == frame_columns(*df)[i as int].1,
{
    format!("{:?}", df.get_columns()[i].dtype())
}

/// `Column::null_count` of the column at place `i` of
/// `DataFrame::get_columns`.
#[verifier::external_body]
pub(crate) fn column_null_count_at(df: &DataFrame, i: usize) -> (nulls: usize)
    requires
        i < frame_columns(*df).len(),
    ensures
        nulls as nat == frame_columns(*df)[i as int].2,
{
    df.get_columns()[i].null_count()
}

/// `DataFrame::slice`: the `len` rows from row `start` on, which must
/// lie within the table.
#[verifier::external_body]
pub(crate) fn slice_rows(df: &DataFrame, start: i64, len: usize) -> (rows: DataFrame)
    requires
        0 <= start,
        start + len <= frame_height(*df),
    ensures
        frame_height(rows) == len,
{
    df.slice(start, len)
}

/// The names of the columns of a table, in the table's order.
pub open spec fn column_names(columns: Seq<(Seq<char>, Seq<char>, nat)>) -> Seq<Seq<char>> {
    Seq::new(columns.len(), |i: int| columns[i].0)
}

/// The summaries that stand for the columns of a table.
pub open spec fn summary_columns(columns: Seq<(Seq<char>, Seq<char>, nat)>) -> Seq<
    ColumnInfoView,
> {
    Seq::new(
        columns.len(),
        |i: int| ColumnInfoView { name: columns[i].0, dtype: columns[i].1, null_count: columns[i].2 },
    )
}

/// The number of rows of a table.
pub fn row_count(df: &DataFrame) -> (rows: usize)
    ensures
        rows as nat == frame_height(*df),
{
    height_of(df)
}

/// The names of the columns of a table, in the table's order.
pub fn names_of(df: &DataFrame) -> (names: Vec<String>)
    ensures
        crate::text::views(names@) == column_names(frame_columns(*df)),
{
    let width = width_of(df);
    let mut names: Vec<String> = Vec::new();
    let mut i: usize = 0;
    while i < width
        invariant
            i <= width,
            width as nat == frame_columns(*df).len(),
            names@.len() == i,
            forall|k: int| 0 <= k < i ==> (#[trigger] names@[k])@ == frame_columns(*df)[k].0,
        decreases width - i,
    {
        names.push(column_name_at(df, i));
        i = i + 1;
    }
    assert(crate::text::views(names@) =~= column_names(frame_columns(*df)));
    names
}

/// One summary for each column of a table, in the table's order.
pub fn column_summaries(df: &DataFrame) -> (columns: Vec<ColumnInfo>)
    ensures
        column_views(columns@) == summary_columns(frame_columns(*df)),
{
    let width = width_of(df);
    let mut columns: Vec<ColumnInfo> = Vec::new();
    let mut i: usize = 0;
    while i < width
        invariant
            i <= width,
            width as nat == frame_columns(*df).len(),
            columns@.len() == i,
            forall|k: int|
                0 <= k < i ==> (#[trigger] columns@[k])@ == summary_columns(
                    frame_columns(*df),
                )[k],
        decreases width - i,
    {
        let info = ColumnInfo {
            name: column_name_at(df, i),
            dtype: column_type_at(df, i),
            null_count: column_null_count_at(df, i),
        };
        columns.push(info);
        i = i + 1;
    }
    assert(column_views(columns@) =~= summary_columns(frame_columns(*df)));
    columns
}

} // verus!
