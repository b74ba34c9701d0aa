//! One step of the history: which operation was applied, the table it
//! produced and how to show the step to a user.

use crate::models::dataset::{DatasetInfo, DatasetInfoView};
use crate::models::mapping::ColumnMapping;
use crate::text::{clone_opt_string, clone_opt_strings, clone_strings, opt_view, opt_views, views};
use polars::frame::DataFrame;
use vstd::prelude::*;

verus! {

/// How missing values are filled.
#[derive(Debug)]
pub enum FillStrategy {
    /// With a given value.
    Constant { value: String },
    /// With the last value before the gap.
    Forward,
    /// With the first value after the gap.
    Backward,
    Mean,
    Median,
    Min,
    Max,
    Zero,
    One,
}

pub enum FillStrategyView {
    Constant { value: Seq<char> },
    Forward,
    Backward,
    Mean,
    Median,
    Min,
    Max,
    Zero,
    One,
}

impl View for FillStrategy {
    type V = FillStrategyView;

    open spec fn view(&self) -> FillStrategyView {
        match self {
            FillStrategy::Constant { value } => FillStrategyView::Constant { value: value@ },
            FillStrategy::Forward => FillStrategyView::Forward,
            FillStrategy::Backward => FillStrategyView::Backward,
            FillStrategy::Mean => FillStrategyView::Mean,
            FillStrategy::Median => FillStrategyView::Median,
            FillStrategy::Min => FillStrategyView::Min,
            FillStrategy::Max => FillStrategyView::Max,
            FillStrategy::Zero => FillStrategyView::Zero,
            FillStrategy::One => FillStrategyView::One,
        }
    }
}

impl Clone for FillStrategy {
    fn clone(&self) -> (copy: Self)
        ensures
            copy@ == self@,
    {
        match self {
            FillStrategy::Constant { value } => FillStrategy::Constant { value: value.clone() },
            FillStrategy::Forward => FillStrategy::Forward,
            FillStrategy::Backward => FillStrategy::Backward,
            FillStrategy::Mean => FillStrategy::Mean,
            FillStrategy::Median => FillStrategy::Median,
            FillStrategy::Min => FillStrategy::Min,
            FillStrategy::Max => FillStrategy::Max,
            FillStrategy::Zero => FillStrategy::Zero,
            FillStrategy::One => FillStrategy::One,
        }
    }
}

impl FillStrategyView {
    /// The strategy's name as a description shows it.
    pub open spec fn label(self) -> Seq<char> {
        match self {
            FillStrategyView::Constant { .. } => "常量"@,
            FillStrategyView::Forward => "向前填充"@,
            FillStrategyView::Backward => "向后填充"@,
            FillStrategyView::Mean => "平均值"@,
            FillStrategyView::Median => "中位数"@,
            FillStrategyView::Min => "最小值"@,
            FillStrategyView::Max => "最大值"@,
            FillStrategyView::Zero => "0"@,
            FillStrategyView::One => "1"@,
        }
    }
}

impl FillStrategy {
    /// The strategy's name as a description shows it.
    pub fn label(&self) -> (name: &'static str)
        ensures
            name@ == self@.label(),
    {
        match self {
            FillStrategy::Constant { .. } => "常量",
            FillStrategy::Forward => "向前填充",
            FillStrategy::Backward => "向后填充",
            FillStrategy::Mean => "平均值",
            FillStrategy::Median => "中位数",
            FillStrategy::Min => "最小值",
            FillStrategy::Max => "最大值",
            FillStrategy::Zero => "0",
            FillStrategy::One => "1",
        }
    }
}

/// A record of the operation that produced a snapshot. It describes the
/// operation; it is not a recipe to run it again.
#[derive(Debug)]
#[allow(inconsistent_fields)]
pub enum OperationType {
    /// A file was read.
    Import { file_path: String },
    /// Columns were turned into rows.
    Unpivot {
        id_vars: Vec<String>,
        value_vars: Vec<String>,
        variable_name: String,
        value_name: String,
        sort_column: Option<String>,
    },
    /// Rows were turned into columns.
    Pivot { index: Vec<String>, columns: String, values: String },
    /// Rows with a missing value were dropped; `subset` names the columns
    /// that were looked at, `None` stands for all of them.
    DropNulls { subset: Option<Vec<String>> },
    /// Rows in which every value is missing were dropped.
    DropAllNulls,
    /// Only the named columns were kept.
    SelectColumns { columns: Vec<String> },
    /// The named columns were dropped.
    DropColumns { columns: Vec<String> },
    /// Columns were renamed: old name to new name.
    RenameColumns { mapping: ColumnMapping },
    /// Columns were cast: column name to the name of the target type.
    CastTypes { mapping: ColumnMapping },
    /// Rows were kept by a condition.
    Filter { expression: String },
    /// Missing values were filled.
    FillNull { strategy: FillStrategy },
    RollingAverage { column: String, window_size: usize, center: bool, min_periods: Option<usize> },
    RollingMedian { column: String, window_size: usize, center: bool, min_periods: Option<usize> },
    RollingSum { column: String, window_size: usize, center: bool, min_periods: Option<usize> },
    RollingMin { column: String, window_size: usize, center: bool, min_periods: Option<usize> },
    RollingMax { column: String, window_size: usize, center: bool, min_periods: Option<usize> },
    RollingStd { column: String, window_size: usize, center: bool, min_periods: Option<usize> },
    RollingVar { column: String, window_size: usize, center: bool, min_periods: Option<usize> },
    /// A rolling quantile; `quantile` is the decimal text of the fraction.
    RollingQuantile {
        column: String,
        window_size: usize,
        quantile: String,
        center: bool,
        min_periods: Option<usize>,
    },
}

/// The seven rolling statistics that take a window alone.
#[derive(Clone, Copy, Debug, PartialEq, Eq, Structural)]
pub enum RollingKind {
    Average,
    Median,
    Sum,
    Min,
    Max,
    Std,
    Var,
}

#[allow(inconsistent_fields)]
pub enum OperationView {
    Import { file_path: Seq<char> },
    Unpivot {
        id_vars: Seq<Seq<char>>,
        value_vars: Seq<Seq<char>>,
        variable_name: Seq<char>,
        value_name: Seq<char>,
        sort_column: Option<Seq<char>>,
    },
    Pivot { index: Seq<Seq<char>>, columns: Seq<char>, values: Seq<char> },
    DropNulls { subset: Option<Seq<Seq<char>>> },
    DropAllNulls,
    SelectColumns { columns: Seq<Seq<char>> },
    DropColumns { columns: Seq<Seq<char>> },
    RenameColumns { mapping: Seq<(Seq<char>, Seq<char>)> },
    CastTypes { mapping: Seq<(Seq<char>, Seq<char>)> },
    Filter { expression: Seq<char> },
    FillNull { strategy: FillStrategyView },
    Rolling {
        kind: RollingKind,
        column: Seq<char>,
        window_size: nat,
        center: bool,
        min_periods: Option<nat>,
    },
    RollingQuantile {
        column: Seq<char>,
        window_size: nat,
        quantile: Seq<char>,
        center: bool,
        min_periods: Option<nat>,
    },
}

/// An optional count as a natural number.
pub open spec fn opt_nat(n: Option<usize>) -> Option<nat> {
    match n {
        Some(k) => Some(k as nat),
        None => None,
    }
}

impl View for OperationType {
    type V = OperationView;

    open spec fn view(&self) -> OperationView {
        match self {
            OperationType::Import { file_path } => OperationView::Import { file_path: file_path@ },
            OperationType::Unpivot {
                id_vars,
                value_vars,
                variable_name,
                value_name,
                sort_column,
            } => OperationView::Unpivot {
                id_vars: views(id_vars@),
                value_vars: views(value_vars@),
                variable_name: variable_name@,
                value_name: value_name@,
                sort_column: opt_view(*sort_column),
            },
            OperationType::Pivot { index, columns, values } => OperationView::Pivot {
                index: views(index@),
                columns: columns@,
                values: values@,
            },
            OperationType::DropNulls { subset } => OperationView::DropNulls {
                subset: opt_views(*subset),
            },
            OperationType::DropAllNulls => OperationView::DropAllNulls,
            OperationType::SelectColumns { columns } => OperationView::SelectColumns {
                columns: views(columns@),
            },
            OperationType::DropColumns { columns } => OperationView::DropColumns {
                columns: views(columns@),
            },
            OperationType::RenameColumns { mapping } => OperationView::RenameColumns {
                mapping: mapping@,
            },
            OperationType::CastTypes { mapping } => OperationView::CastTypes { mapping: mapping@ },
            OperationType::Filter { expression } => OperationView::Filter {
                expression: expression@,
            },
            OperationType::FillNull { strategy } => OperationView::FillNull {
                strategy: strategy@,
            },
            OperationType::RollingAverage {
                column,
                window_size,
                center,
                min_periods,
            } => OperationView::Rolling {
                kind: RollingKind::Average,
                column: column@,
                window_size: *window_size as nat,
                center: *center,
                min_periods: opt_nat(*min_periods),
            },
            OperationType::RollingMedian {
                column,
                window_size,
                center,
                min_periods,
            } => OperationView::Rolling {
                kind: RollingKind::Median,
                column: column@,
                window_size: *window_size as nat,
                center: *center,
                min_periods: opt_nat(*min_periods),
            },
            OperationType::RollingSum {
                column,
                window_size,
                center,
                min_periods,
            } => OperationView::Rolling {
                kind: RollingKind::Sum,
                column: column@,
                window_size: *window_size as nat,
                center: *center,
                min_periods: opt_nat(*min_periods),
            },
            OperationType::RollingMin {
                column,
                window_size,
                center,
                min_periods,
            } => OperationView::Rolling {
                kind: RollingKind::Min,
                column: column@,
                window_size: *window_size as nat,
                center: *center,
                min_periods: opt_nat(*min_periods),
            },
            OperationType::RollingMax {
                column,
                window_size,
                center,
                min_periods,
            } => OperationView::Rolling {
                kind: RollingKind::Max,
                column: column@,
                window_size: *window_size as nat,
                center: *center,
                min_periods: opt_nat(*min_periods),
            },
            OperationType::RollingStd {
                column,
                window_size,
                center,
                min_periods,
            } => OperationView::Rolling {
                kind: RollingKind::Std,
                column: column@,
                window_size: *window_size as nat,
                center: *center,
                min_periods: opt_nat(*min_periods),
            },
            OperationType::RollingVar {
                column,
                window_size,
                center,
                min_periods,
            } => OperationView::Rolling {
                kind: RollingKind::Var,
                column: column@,
                window_size: *window_size as nat,
                center: *center,
                min_periods: opt_nat(*min_periods),
            },
            OperationType::RollingQuantile {
                column,
                window_size,
                quantile,
                center,
                min_periods,
            } => OperationView::RollingQuantile {
                column: column@,
                window_size: *window_size as nat,
                quantile: quantile@,
                center: *center,
                min_periods: opt_nat(*min_periods),
            },
        }
    }
}

impl Clone for OperationType {
    fn clone(&self) -> (copy: Self)
        ensures
            copy@ == self@,
    {
        match self {
            OperationType::Import { file_path } => OperationType::Import {
                file_path: file_path.clone(),
            },
            OperationType::Unpivot {
                id_vars,
                value_vars,
                variable_name,
                value_name,
                sort_column,
            } => OperationType::Unpivot {
                id_vars: clone_strings(id_vars),
                value_vars: clone_strings(value_vars),
                variable_name: variable_name.clone(),
                value_name: value_name.clone(),
                sort_column: clone_opt_string(sort_column),
            },
            OperationType::Pivot { index, columns, values } => OperationType::Pivot {
                index: clone_strings(index),
                columns: columns.clone(),
                values: values.clone(),
            },
            OperationType::DropNulls { subset } => OperationType::DropNulls {
                subset: clone_opt_strings(subset),
            },
            OperationType::DropAllNulls => OperationType::DropAllNulls,
            OperationType::SelectColumns { columns } => OperationType::SelectColumns {
                columns: clone_strings(columns),
            },
            OperationType::DropColumns { columns } => OperationType::DropColumns {
                columns: clone_strings(columns),
            },
            OperationType::RenameColumns { mapping } => OperationType::RenameColumns {
                mapping: mapping.clone(),
            },
            OperationType::CastTypes { mapping } => OperationType::CastTypes {
                mapping: mapping.clone(),
            },
            OperationType::Filter { expression } => OperationType::Filter {
                expression: expression.clone(),
            },
            OperationType::FillNull { strategy } => OperationType::FillNull {
                strategy: strategy.clone(),
            },
            OperationType::RollingAverage {
                column,
                window_size,
                center,
                min_periods,
            } => OperationType::RollingAverage {
                column: column.clone(),
                window_size: *window_size,
                center: *center,
                min_periods: *min_periods,
            },
            OperationType::RollingMedian {
                column,
                window_size,
                center,
                min_periods,
            } => OperationType::RollingMedian {
                column: column.clone(),
                window_size: *window_size,
                center: *center,
                min_periods: *min_periods,
            },
            OperationType::RollingSum {
                column,
                window_size,
                center,
                min_periods,
            } => OperationType::RollingSum {
                column: column.clone(),
                window_size: *window_size,
                center: *center,
                min_periods: *min_periods,
            },
            OperationType::RollingMin {
                column,
                window_size,
                center,
                min_periods,
            } => OperationType::RollingMin {
                column: column.clone(),
                window_size: *window_size,
                center: *center,
                min_periods: *min_periods,
            },
            OperationType::RollingMax {
                column,
                window_size,
                center,
                min_periods,
            } => OperationType::RollingMax {
                column: column.clone(),
                window_size: *window_size,
                center: *center,
                min_periods: *min_periods,
            },
            OperationType::RollingStd {
                column,
                window_size,
                center,
                min_periods,
            } => OperationType::RollingStd {
                column: column.clone(),
                window_size: *window_size,
                center: *center,
                min_periods: *min_periods,
            },
            OperationType::RollingVar {
                column,
                window_size,
                center,
                min_periods,
            } => OperationType::RollingVar {
                column: column.clone(),
                window_size: *window_size,
                center: *center,
                min_periods: *min_periods,
            },
            OperationType::RollingQuantile {
                column,
                window_size,
                quantile,
                center,
                min_periods,
            } => OperationType::RollingQuantile {
                column: column.clone(),
                window_size: *window_size,
                quantile: quantile.clone(),
                center: *center,
                min_periods: *min_periods,
            },
        }
    }
}

/// One point in history: the operation, the table after it, and what a
/// list of the history shows of it. An entry is made once and not changed.
pub struct HistoryEntry {
    /// The entry's identifier, unique among the entries of a store.
    pub id: String,
    /// The operation that produced the snapshot.
    pub operation: OperationType,
    /// The whole table after the operation.
    pub dataframe: DataFrame,
    /// The summary of the snapshot.
    pub metadata: DatasetInfo,
    /// When the entry was made.
    pub timestamp: String,
    /// The operation in words.
    pub description: String,
}

pub struct HistoryEntryView {
    pub id: Seq<char>,
    pub operation: OperationView,
    pub dataframe: DataFrame,
    pub metadata: DatasetInfoView,
    pub timestamp: Seq<char>,
    pub description: Seq<char>,
}

impl View for HistoryEntry {
    type V = HistoryEntryView;

    open spec fn view(&self) -> HistoryEntryView {
        HistoryEntryView {
            id: self.id@,
            operation: self.operation@,
            dataframe: self.dataframe,
            metadata: self.metadata@,
            timestamp: self.timestamp@,
            description: self.description@,
        }
    }
}

/// What a list of the history shows of an entry: all of it but the table.
#[derive(Debug)]
pub struct HistoryEntryInfo {
    pub id: String,
    pub operation: OperationType,
    pub metadata: DatasetInfo,
    pub timestamp: String,
    pub description: String,
}

pub struct HistoryEntryInfoView {
    pub id: Seq<char>,
    pub operation: OperationView,
    pub metadata: DatasetInfoView,
    pub timestamp: Seq<char>,
    pub description: Seq<char>,
}

impl View for HistoryEntryInfo {
    type V = HistoryEntryInfoView;

    open spec fn view(&self) -> HistoryEntryInfoView {
        HistoryEntryInfoView {
            id: self.id@,
            operation: self.operation@,
            metadata: self.metadata@,
            timestamp: self.timestamp@,
            description: self.description@,
        }
    }
}

impl HistoryEntryView {
    /// The entry without its table.
    pub open spec fn info(self) -> HistoryEntryInfoView {
        HistoryEntryInfoView {
            id: self.id,
            operation: self.operation,
            metadata: self.metadata,
            timestamp: self.timestamp,
            description: self.description,
        }
    }
}

impl Clone for HistoryEntryInfo {
    fn clone(&self) -> (copy: Self)
        ensures
            copy@ == self@,
    {
        HistoryEntryInfo {
            id: self.id.clone(),
            operation: self.operation.clone(),
            metadata: self.metadata.clone(),
            timestamp: self.timestamp.clone(),
            description: self.description.clone(),
        }
    }
}

impl vstd::std_specs::convert::FromSpecImpl<&HistoryEntry> for HistoryEntryInfo {
    /// The copy equals the entry's fields by their views, which is less
    /// than the equality that `from_spec` would promise.
    open spec fn obeys_from_spec() -> bool {
        false
    }

    open spec fn from_spec(entry: &HistoryEntry) -> Self {
        HistoryEntryInfo {
            id: entry.id,
            operation: entry.operation,
            metadata: entry.metadata,
            timestamp: entry.timestamp,
            description: entry.description,
        }
    }
}

impl From<&HistoryEntry> for HistoryEntryInfo {
    fn from(entry: &HistoryEntry) -> (info: Self)
        ensures
            info@ == entry@.info(),
    {
        HistoryEntryInfo {
            id: entry.id.clone(),
            operation: entry.operation.clone(),
            metadata: entry.metadata.clone(),
            timestamp: entry.timestamp.clone(),
            description: entry.description.clone(),
        }
    }
}

} // verus!
