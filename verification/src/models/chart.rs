//! What a caller asks of a chart.

use crate::text::{clone_opt_string, clone_opt_strings, opt_view, opt_views};
use serde_json::Value;
use vstd::prelude::*;

verus! {

/// The kinds of chart.
#[derive(Clone, Copy, Debug, PartialEq, Eq, Structural)]
pub enum ChartType {
    Line,
    Bar,
    Scatter,
    Pie,
    Histogram,
}

/// A request for a chart of the current table.
#[derive(Debug)]
pub struct ChartConfig {
    /// The kind of chart.
    pub chart_type: ChartType,
    /// The column of the horizontal axis (line, bar, scatter).
    pub x_column: Option<String>,
    /// The columns of the vertical axis, one series each (line, bar, scatter).
    pub y_columns: Option<Vec<String>>,
    /// The column of the categories (pie).
    pub category_column: Option<String>,
    /// The column of the values (pie).
    pub value_column: Option<String>,
    /// A title.
    pub title: Option<String>,
    /// How a line chart draws its lines.
    pub line_style: Option<String>,
    /// The series that go to the right-hand axis (line).
    pub y_axis_right_columns: Option<Vec<String>>,
    /// The column to count (histogram).
    pub histogram_column: Option<String>,
    /// The number of bins (histogram).
    pub histogram_bins: Option<usize>,
}

pub struct ChartConfigView {
    pub chart_type: ChartType,
    pub x_column: Option<Seq<char>>,
    pub y_columns: Option<Seq<Seq<char>>>,
    pub category_column: Option<Seq<char>>,
    pub value_column: Option<Seq<char>>,
    pub title: Option<Seq<char>>,
    pub line_style: Option<Seq<char>>,
    pub y_axis_right_columns: Option<Seq<Seq<char>>>,
    pub histogram_column: Option<Seq<char>>,
    pub histogram_bins: Option<usize>,
}

impl View for ChartConfig {
    type V = ChartConfigView;

    open spec fn view(&self) -> ChartConfigView {
        ChartConfigView {
            chart_type: self.chart_type,
            x_column: opt_view(self.x_column),
            y_columns: opt_views(self.y_columns),
            category_column: opt_view(self.category_column),
            value_column: opt_view(self.value_column),
            title: opt_view(self.title),
            line_style: opt_view(self.line_style),
            y_axis_right_columns: opt_views(self.y_axis_right_columns),
            histogram_column: opt_view(self.histogram_column),
            histogram_bins: self.histogram_bins,
        }
    }
}

impl Clone for ChartConfig {
    fn clone(&self) -> (copy: Self)
        ensures
            copy@ == self@,
    {
        ChartConfig {
            chart_type: self.chart_type,
            x_column: clone_opt_string(&self.x_column),
            y_columns: clone_opt_strings(&self.y_columns),
            category_column: clone_opt_string(&self.category_column),
            value_column: clone_opt_string(&self.value_column),
            title: clone_opt_string(&self.title),
            line_style: clone_opt_string(&self.line_style),
            y_axis_right_columns: clone_opt_strings(&self.y_axis_right_columns),
            histogram_column: clone_opt_string(&self.histogram_column),
            histogram_bins: self.histogram_bins,
        }
    }
}

/// The values of a chart, as a table of JSON values: the first row
/// holds the column names, every further row one row of data.
#[derive(Debug)]
pub struct ChartData {
    /// The kind of chart.
    pub chart_type: ChartType,
    /// The header row, then the rows of data.
    pub dataset: Vec<Vec<Value>>,
    /// The number of rows of data.
    pub data_count: usize,
}

} // verus!
