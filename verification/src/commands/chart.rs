//! What is decided of a chart before any value is read: which columns it
//! needs, and whether the table has them.

use crate::data::cells::{json_string, json_text_of};
use crate::models::chart::{ChartConfig, ChartConfigView, ChartData, ChartType};
use crate::text::{clone_strings, concat3, same_text, views};
use serde_json::Value;
use vstd::prelude::*;

verus! {


/// The header row of a chart: each column name as a JSON string.
pub open spec fn header_row(columns: Seq<Seq<char>>) -> Seq<Value> {
    Seq::new(columns.len(), |i: int| json_text_of(columns[i]))
}

/// Puts the values of a chart together: the names of `columns` as the
/// header row, then `rows` as they are.
pub fn chart_dataset(chart_type: ChartType, columns: &Vec<String>, rows: Vec<Vec<Value>>) -> (data:
    ChartData)
    ensures
        data.chart_type == chart_type,
        data.data_count == rows@.len(),
        data.dataset@.len() == rows@.len() + 1,
        data.dataset@[0]@ == header_row(views(columns@)),
        data.dataset@.skip(1) == rows@,
{
    let mut header: Vec<Value> = Vec::new();
    let mut i: usize = 0;
    while i < columns.len()
        invariant
            i <= columns.len(),
            header@.len() == i,
            forall|k: int| 0 <= k < i ==> header@[k] == json_text_of(columns@[k]@),
        decreases columns.len() - i,
    {
        header.push(json_string(columns[i].clone()));
        i = i + 1;
    }
    assert(header@ =~= header_row(views(columns@)));
    let data_count = rows.len();
    let mut dataset: Vec<Vec<Value>> = Vec::new();
    dataset.push(header);
    let mut rows = rows;
    let ghost given = rows@;
    dataset.append(&mut rows);
    assert(dataset@.skip(1) =~= given);
    ChartData { chart_type, dataset, data_count }
}

/// The number of bins of a histogram that names none.
pub const DEFAULT_HISTOGRAM_BINS: usize = 10;

/// The columns that a chart reads, and the number of bins where the
/// chart is a histogram.
#[derive(Debug)]
pub struct ChartPlan {
    /// The columns to read, in the order in which the chart shows them.
    pub columns: Vec<String>,
    /// The number of bins of a histogram.
    pub bins: usize,
}

pub open spec fn x_missing_text() -> Seq<char> {
    "折线图/柱状图/散点图需要指定 x_column"@
}

pub open spec fn y_missing_text() -> Seq<char> {
    "折线图/柱状图/散点图需要指定 y_columns"@
}

pub open spec fn y_empty_text() -> Seq<char> {
    "至少需要选择一个 Y 轴列"@
}

pub open spec fn category_missing_text() -> Seq<char> {
    "饼图需要指定 category_column"@
}

pub open spec fn value_missing_text() -> Seq<char> {
    "饼图需要指定 value_column"@
}

pub open spec fn histogram_missing_text() -> Seq<char> {
    "直方图需要指定 histogram_column"@
}

pub open spec fn no_bins_text() -> Seq<char> {
    "直方图分箱数量必须大于 0"@
}

/// The words that say that the table has no column of this name.
pub open spec fn no_column_text(name: Seq<char>) -> Seq<char> {
    "列 '"@ + name + "' 不存在"@
}

/// The number of bins that a request asks for.
pub open spec fn bins_of(config: ChartConfigView) -> nat {
    match config.histogram_bins {
        Some(n) => n as nat,
        None => DEFAULT_HISTOGRAM_BINS as nat,
    }
}

/// The columns that a request needs, or the words that say what it
/// lacks. A chart over two axes needs the column of the first axis and
/// then those of the second, a pie its categories and its values, a
/// histogram its one column and at least one bin.
pub open spec fn wanted_columns(config: ChartConfigView) -> Result<Seq<Seq<char>>, Seq<char>> {
    match config.chart_type {
        ChartType::Pie => match config.category_column {
            None => Err(category_missing_text()),
            Some(category) => match config.value_column {
                None => Err(value_missing_text()),
                Some(value) => Ok(seq![category, value]),
            },
        },
        ChartType::Histogram => match config.histogram_column {
            None => Err(histogram_missing_text()),
            Some(column) => if bins_of(config) == 0 {
                Err(no_bins_text())
            } else {
                Ok(seq![column])
            },
        },
        _ => match config.x_column {
            None => Err(x_missing_text()),
            Some(x) => match config.y_columns {
                None => Err(y_missing_text()),
                Some(ys) => if ys.len() == 0 {
                    Err(y_empty_text())
                } else {
                    Ok(seq![x] + ys)
                },
            },
        },
    }
}

/// The place of the first wanted column that the table lacks.
pub open spec fn is_first_missing(
    wanted: Seq<Seq<char>>,
    available: Seq<Seq<char>>,
    i: int,
) -> bool {
    &&& 0 <= i < wanted.len()
    &&& !available.contains(wanted[i])
    &&& forall|j: int| 0 <= j < i ==> available.contains(#[trigger] wanted[j])
}

/// Whether `name` is among `names`.
pub fn contains_name(names: &Vec<String>, name: &str) -> (found: bool)
    ensures
        found == views(names@).contains(name@),
{
    let mut i: usize = 0;
    while i < names.len()
        invariant
            i <= names.len(),
            forall|k: int| 0 <= k < i ==> names@[k]@ != name@,
        decreases names.len() - i,
    {
        if same_text(names[i].as_str(), name) {
            assert(views(names@)[i as int] == name@);
            return true;
        }
        i = i + 1;
    }
    assert(!views(names@).contains(name@)) by {
        if views(names@).contains(name@) {
            let k = choose|k: int| 0 <= k < views(names@).len() && views(names@)[k] == name@;
            assert(names@[k]@ == name@);
        }
    }
    false
}

/// Accepts a list of wanted columns that the table has all of. Refused,
/// in the words for the first column that is missing, otherwise.
pub fn check_columns(wanted: &Vec<String>, available: &Vec<String>) -> (checked: Result<(), String>)
    ensures
        match checked {
            Ok(_) => forall|i: int|
                0 <= i < wanted@.len() ==> views(available@).contains(
                    #[trigger] views(wanted@)[i],
                ),
            Err(message) => exists|i: int|
                is_first_missing(views(wanted@), views(available@), i) && message@
                    == no_column_text(views(wanted@)[i]),
        },
{
    let mut i: usize = 0;
    while i < wanted.len()
        invariant
            i <= wanted.len(),
            forall|k: int|
                0 <= k < i ==> views(available@).contains(#[trigger] views(wanted@)[k]),
        decreases wanted.len() - i,
    {
        if !contains_name(available, wanted[i].as_str()) {
            assert(is_first_missing(views(wanted@), views(available@), i as int));
            return Err(concat3("列 '", wanted[i].as_str(), "' 不存在"));
        }
        i = i + 1;
    }
    Ok(())
}

/// The columns that a request needs, or the words that say what the
/// request lacks.
pub fn requested_columns(config: &ChartConfig) -> (wanted: Result<Vec<String>, String>)
    ensures
        match wanted_columns(config@) {
            Ok(columns) => wanted is Ok && views(wanted->Ok_0@) == columns,
            Err(text) => wanted is Err && wanted->Err_0@ == text,
        },
{
    match config.chart_type {
        ChartType::Pie => {
            match &config.category_column {
                None => Err("饼图需要指定 category_column".to_string()),
                Some(category) => match &config.value_column {
                    None => Err("饼图需要指定 value_column".to_string()),
                    Some(value) => {
                        let mut columns: Vec<String> = Vec::new();
                        columns.push(category.clone());
                        columns.push(value.clone());
                        assert(views(columns@) =~= seq![category@, value@]);
                        Ok(columns)
                    },
                },
            }
        },
        ChartType::Histogram => {
            match &config.histogram_column {
                None => Err("直方图需要指定 histogram_column".to_string()),
                Some(column) => {
                    let bins = match config.histogram_bins {
                        Some(n) => n,
                        None => DEFAULT_HISTOGRAM_BINS,
                    };
                    if bins == 0 {
                        Err("直方图分箱数量必须大于 0".to_string())
                    } else {
                        let mut columns: Vec<String> = Vec::new();
                        columns.push(column.clone());
                        assert(views(columns@) =~= seq![column@]);
                        Ok(columns)
                    }
                },
            }
        },
        _ => {
            match &config.x_column {
                None => Err("折线图/柱状图/散点图需要指定 x_column".to_string()),
                Some(x) => match &config.y_columns {
                    None => Err("折线图/柱状图/散点图需要指定 y_columns".to_string()),
                    Some(ys) => {
                        if ys.len() == 0 {
                            Err("至少需要选择一个 Y 轴列".to_string())
                        } else {
                            let mut columns: Vec<String> = Vec::new();
                            columns.push(x.clone());
                            let mut rest = clone_strings(ys);
                            let ghost rest_view = views(rest@);
                            columns.append(&mut rest);
                            assert(views(columns@) =~= seq![x@] + rest_view);
                            Ok(columns)
                        }
                    },
                },
            }
        },
    }
}

/// Plans a chart of a table whose columns are named `available`: the
/// columns that the chart reads and the number of bins. Refused where
/// the request lacks a part, and then where the table lacks a column.
pub fn plan_chart(config: &ChartConfig, available: &Vec<String>) -> (plan: Result<
    ChartPlan,
    String,
>)
    ensures
        match wanted_columns(config@) {
            Err(text) => plan is Err && plan->Err_0@ == text,
            Ok(columns) => match plan {
                Ok(made) => views(made.columns@) == columns && made.bins == bins_of(config@)
                    && forall|i: int|
                    0 <= i < columns.len() ==> views(available@).contains(#[trigger] columns[i]),
                Err(message) => exists|i: int|
                    is_first_missing(columns, views(available@), i) && message@
                        == no_column_text(columns[i]),
            },
        },
{
    let columns = requested_columns(config)?;
    check_columns(&columns, available)?;
    let bins = match config.histogram_bins {
        Some(n) => n,
        None => DEFAULT_HISTOGRAM_BINS,
    };
    Ok(ChartPlan { columns, bins })
}

} // verus!
