//! The words in which an operation is shown to a user.

use crate::models::history::{opt_nat, OperationType, OperationView, RollingKind};
use crate::text::{
    decimal, decimal_text, file_name_of, join_text, joined, opt_str_view, opt_view,
};
use vstd::prelude::*;
use vstd::string::StringExecFns;

verus! {

/// Yes or no, as a description shows it.
pub open spec fn yes_no(b: bool) -> Seq<char> {
    if b {
        "是"@
    } else {
        "否"@
    }
}

/// The least number of samples of a window: the given one, or one.
pub open spec fn periods_or_one(min_periods: Option<nat>) -> nat {
    match min_periods {
        Some(n) => n,
        None => 1,
    }
}

/// `head`, the count, and the closing words of a count of columns.
pub open spec fn counted(head: Seq<char>, n: nat) -> Seq<char> {
    head + decimal(n) + " 列)"@
}

impl RollingKind {
    /// The statistic's name as a description shows it.
    pub open spec fn label(self) -> Seq<char> {
        match self {
            RollingKind::Average => "移动平均"@,
            RollingKind::Median => "移动中位数"@,
            RollingKind::Sum => "移动求和"@,
            RollingKind::Min => "移动最小值"@,
            RollingKind::Max => "移动最大值"@,
            RollingKind::Std => "移动标准差"@,
            RollingKind::Var => "移动方差"@,
        }
    }
}

/// The description of a rolling statistic: its name, then the column, the
/// window, whether the window is centred and the least number of samples.
pub open spec fn rolling_text(
    label: Seq<char>,
    column: Seq<char>,
    window_size: nat,
    center: bool,
    min_periods: Option<nat>,
) -> Seq<char> {
    label + " (列: "@ + column + ", 窗口: "@ + decimal(window_size) + ", 居中: "@ + yes_no(center)
        + ", 最小样本: "@ + decimal(periods_or_one(min_periods)) + ")"@
}

/// The description of a rolling quantile: as that of the other rolling
/// statistics, with the fraction after the window.
pub open spec fn quantile_text(
    column: Seq<char>,
    window_size: nat,
    quantile: Seq<char>,
    center: bool,
    min_periods: Option<nat>,
) -> Seq<char> {
    "移动分位数 (列: "@ + column + ", 窗口: "@ + decimal(window_size) + ", 分位: "@ + quantile
        + ", 居中: "@ + yes_no(center) + ", 最小样本: "@ + decimal(periods_or_one(min_periods))
        + ")"@
}

/// The description of an unpivot: the two counts, and the sort column in
/// brackets where there is one.
pub open spec fn unpivot_text(ids: nat, values: nat, sort_column: Option<Seq<char>>) -> Seq<
    char,
> {
    let base = "横表转纵表 (标识列: "@ + decimal(ids) + ", 值列: "@ + decimal(values) + ")"@;
    match sort_column {
        Some(column) => base + " [按 "@ + column + " 排序]"@,
        None => base,
    }
}

/// The name under which a file is shown: the given one, or a word for a
/// file without a name.
pub open spec fn shown_file_name(file_name: Option<Seq<char>>) -> Seq<char> {
    match file_name {
        Some(name) => name,
        None => "未知文件"@,
    }
}

impl OperationView {
    /// The operation in words. `file_name` is the last component of the
    /// path of an import, where the path has one; no other operation
    /// looks at it.
    pub open spec fn description(self, file_name: Option<Seq<char>>) -> Seq<char> {
        match self {
            OperationView::Import { .. } => "导入文件: "@ + shown_file_name(file_name),
            OperationView::Unpivot { id_vars, value_vars, sort_column, .. } => unpivot_text(
                id_vars.len(),
                value_vars.len(),
                sort_column,
            ),
            OperationView::Pivot { index, columns, values } => "纵表转横表 (索引: "@ + joined(
                index,
                ", "@,
            ) + ", 列: "@ + columns + ", 值: "@ + values + ")"@,
            OperationView::DropNulls { subset } => match subset {
                Some(columns) => counted("删除空值行 (检查 "@, columns.len()),
                None => "删除空值行 (检查所有列)"@,
            },
            OperationView::DropAllNulls => "删除全空行"@,
            OperationView::SelectColumns { columns } => counted("选择列 ("@, columns.len()),
            OperationView::DropColumns { columns } => counted("删除列 ("@, columns.len()),
            OperationView::RenameColumns { mapping } => counted("重命名列 ("@, mapping.len()),
            OperationView::CastTypes { mapping } => counted("转换列类型 ("@, mapping.len()),
            OperationView::Filter { .. } => "筛选过滤"@,
            OperationView::FillNull { strategy } => "空值填充 ("@ + strategy.label() + ")"@,
            OperationView::Rolling {
                kind,
                column,
                window_size,
                center,
                min_periods,
            } => rolling_text(kind.label(), column, window_size, center, min_periods),
            OperationView::RollingQuantile {
                column,
                window_size,
                quantile,
                center,
                min_periods,
            } => quantile_text(column, window_size, quantile, center, min_periods),
        }
    }

    /// Whether the description depends on a file name.
    pub open spec fn names_a_file(self) -> bool {
        self is Import
    }
}

fn yes_no_text(b: bool) -> (s: &'static str)
    ensures
        s@ == yes_no(b),
{
    if b {
        "是"
    } else {
        "否"
    }
}

fn periods_text(min_periods: Option<usize>) -> (s: String)
    ensures
        s@ == decimal(periods_or_one(opt_nat(min_periods))),
{
    match min_periods {
        Some(n) => decimal_text(n),
        None => decimal_text(1),
    }
}

fn counted_text(head: &str, n: usize) -> (s: String)
    ensures
        s@ == counted(head@, n as nat),
{
    let mut s = head.to_owned();
    s.append(decimal_text(n).as_str());
    s.append(" 列)");
    s
}

fn rolling_description(
    label: &str,
    column: &str,
    window_size: usize,
    center: bool,
    min_periods: Option<usize>,
) -> (s: String)
    ensures
        s@ == rolling_text(label@, column@, window_size as nat, center, opt_nat(min_periods)),
{
    let mut s = label.to_owned();
    s.append(" (列: ");
    s.append(column);
    s.append(", 窗口: ");
    s.append(decimal_text(window_size).as_str());
    s.append(", 居中: ");
    s.append(yes_no_text(center));
    s.append(", 最小样本: ");
    s.append(periods_text(min_periods).as_str());
    s.append(")");
    s
}

fn quantile_description(
    column: &str,
    window_size: usize,
    quantile: &str,
    center: bool,
    min_periods: Option<usize>,
) -> (s: String)
    ensures
        s@ == quantile_text(
            column@,
            window_size as nat,
            quantile@,
            center,
            opt_nat(min_periods),
        ),
{
    let mut s = "移动分位数 (列: ".to_owned();
    s.append(column);
    s.append(", 窗口: ");
    s.append(decimal_text(window_size).as_str());
    s.append(", 分位: ");
    s.append(quantile);
    s.append(", 居中: ");
    s.append(yes_no_text(center));
    s.append(", 最小样本: ");
    s.append(periods_text(min_periods).as_str());
    s.append(")");
    s
}

fn unpivot_description(ids: usize, values: usize, sort_column: &Option<String>) -> (s: String)
    ensures
        s@ == unpivot_text(ids as nat, values as nat, opt_view(*sort_column)),
{
    let mut s = "横表转纵表 (标识列: ".to_owned();
    s.append(decimal_text(ids).as_str());
    s.append(", 值列: ");
    s.append(decimal_text(values).as_str());
    s.append(")");
    match sort_column {
        Some(column) => {
            s.append(" [按 ");
            s.append(column.as_str());
            s.append(" 排序]");
        },
        None => {},
    }
    s
}

impl OperationType {
    /// The operation in words, for a given file name. Only an import
    /// shows the file name.
    pub fn description_with(&self, file_name: Option<&str>) -> (text: String)
        ensures
            text@ == self@.description(opt_str_view(file_name)),
    {
        match self {
            OperationType::Import { .. } => {
                let mut s = "导入文件: ".to_owned();
                match file_name {
                    Some(name) => s.append(name),
                    None => s.append("未知文件"),
                }
                s
            },
            OperationType::Unpivot { id_vars, value_vars, sort_column, .. } => {
                unpivot_description(id_vars.len(), value_vars.len(), sort_column)
            },
            OperationType::Pivot { index, columns, values } => {
                let mut s = "纵表转横表 (索引: ".to_owned();
                s.append(join_text(index, ", ").as_str());
                s.append(", 列: ");
                s.append(columns.as_str());
                s.append(", 值: ");
                s.append(values.as_str());
                s.append(")");
                s
            },
            OperationType::DropNulls { subset } => match subset {
                Some(columns) => counted_text("删除空值行 (检查 ", columns.len()),
                None => "删除空值行 (检查所有列)".to_owned(),
            },
            OperationType::DropAllNulls => "删除全空行".to_owned(),
            OperationType::SelectColumns { columns } => counted_text("选择列 (", columns.len()),
            OperationType::DropColumns { columns } => counted_text("删除列 (", columns.len()),
            OperationType::RenameColumns { mapping } => counted_text("重命名列 (", mapping.len()),
            OperationType::CastTypes { mapping } => counted_text("转换列类型 (", mapping.len()),
            OperationType::Filter { .. } => "筛选过滤".to_owned(),
            OperationType::FillNull { strategy } => {
                let mut s = "空值填充 (".to_owned();
                s.append(strategy.label());
                s.append(")");
                s
            },
            OperationType::RollingAverage {
                column,
                window_size,
                center,
                min_periods,
            } => rolling_description(
                "移动平均",
                column.as_str(),
                *window_size,
                *center,
                *min_periods,
            ),
            OperationType::RollingMedian {
                column,
                window_size,
                center,
                min_periods,
            } => rolling_description(
                "移动中位数",
                column.as_str(),
                *window_size,
                *center,
                *min_periods,
            ),
            OperationType::RollingSum {
                column,
                window_size,
                center,
                min_periods,
            } => rolling_description(
                "移动求和",
                column.as_str(),
                *window_size,
                *center,
                *min_periods,
            ),
            OperationType::RollingMin {
                column,
                window_size,
                center,
                min_periods,
            } => rolling_description(
                "移动最小值",
                column.as_str(),
                *window_size,
                *center,
                *min_periods,
            ),
            OperationType::RollingMax {
                column,
                window_size,
                center,
                min_periods,
            } => rolling_description(
                "移动最大值",
                column.as_str(),
                *window_size,
                *center,
                *min_periods,
            ),
            OperationType::RollingStd {
                column,
                window_size,
                center,
                min_periods,
            } => rolling_description(
                "移动标准差",
                column.as_str(),
                *window_size,
                *center,
                *min_periods,
            ),
            OperationType::RollingVar {
                column,
                window_size,
                center,
                min_periods,
            } => rolling_description(
                "移动方差",
                column.as_str(),
                *window_size,
                *center,
                *min_periods,
            ),
            OperationType::RollingQuantile {
                column,
                window_size,
                quantile,
                center,
                min_periods,
            } => quantile_description(
                column.as_str(),
                *window_size,
                quantile.as_str(),
                *center,
                *min_periods,
            ),
        }
    }

    /// The operation in words. An import is shown with the last component
    /// of its path, as the platform tells components apart; every other
    /// operation is described by its parameters alone.
    pub fn description(&self) -> (text: String)
        ensures
            exists|file_name: Option<Seq<char>>| text@ == self@.description(file_name),
            !self@.names_a_file() ==> text@ == self@.description(None),
    {
        match self {
            OperationType::Import { file_path } => {
                let name = file_name_of(file_path.as_str());
                let text = match &name {
                    Some(n) => self.description_with(Some(n.as_str())),
                    None => self.description_with(None),
                };
                assert(text@ == self@.description(opt_view(name)));
                text
            },
            _ => {
                let text = self.description_with(None);
                text
            },
        }
    }
}

} // verus!
