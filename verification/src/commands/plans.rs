//! What is decided of a transformation before the engine runs it: whether
//! its parameters are accepted, and under which names its result appears.

use crate::models::history::{
    opt_nat, FillStrategy, FillStrategyView, OperationType, OperationView, RollingKind,
};
use crate::models::mapping::ColumnMapping;
use crate::text::{concat2, decimal, decimal_text, opt_view, same_text};
use vstd::prelude::*;
use vstd::string::StringExecFns;

verus! {

/// The words that refuse a window without samples.
pub open spec fn window_too_small_text() -> Seq<char> {
    "窗口大小必须至少为 1"@
}

/// Accepts a window of at least one sample.
pub fn check_window(window_size: usize) -> (checked: Result<(), String>)
    ensures
        window_size >= 1 ==> checked is Ok,
        window_size < 1 ==> checked is Err && checked->Err_0@ == window_too_small_text(),
{
    if window_size < 1 {
        Err("窗口大小必须至少为 1".to_string())
    } else {
        Ok(())
    }
}

impl RollingKind {
    /// What the name of the result column says of the statistic.
    pub open spec fn suffix(self) -> Seq<char> {
        match self {
            RollingKind::Average => "_rolling_avg_"@,
            RollingKind::Median => "_rolling_median_"@,
            RollingKind::Sum => "_rolling_sum_"@,
            RollingKind::Min => "_rolling_min_"@,
            RollingKind::Max => "_rolling_max_"@,
            RollingKind::Std => "_rolling_std_"@,
            RollingKind::Var => "_rolling_var_"@,
        }
    }

    fn suffix_text(self) -> (s: &'static str)
        ensures
            s@ == self.suffix(),
    {
        match self {
            RollingKind::Average => "_rolling_avg_",
            RollingKind::Median => "_rolling_median_",
            RollingKind::Sum => "_rolling_sum_",
            RollingKind::Min => "_rolling_min_",
            RollingKind::Max => "_rolling_max_",
            RollingKind::Std => "_rolling_std_",
            RollingKind::Var => "_rolling_var_",
        }
    }
}

/// The name of the column that holds a rolling statistic: the source
/// column, the statistic, the window.
pub open spec fn rolling_column(kind: RollingKind, column: Seq<char>, window_size: nat) -> Seq<
    char,
> {
    column + kind.suffix() + decimal(window_size)
}

/// The name of the column that holds a rolling quantile: the source
/// column, the window, the fraction.
pub open spec fn quantile_column(column: Seq<char>, window_size: nat, quantile: Seq<char>) -> Seq<
    char,
> {
    column + "_rolling_quantile_"@ + decimal(window_size) + "_"@ + quantile
}

/// What the engine is asked for a rolling statistic.
#[derive(Debug)]
pub struct RollingPlan {
    /// The name of the column that the statistic goes to.
    pub new_column: String,
    /// The number of samples in a window.
    pub window_size: usize,
    /// The least number of samples for which a window gives a value.
    pub min_periods: usize,
    /// Whether a window is centred on its row.
    pub center: bool,
}

/// The least number of samples of a window: the given one, or one.
pub fn effective_min_periods(min_periods: Option<usize>) -> (n: usize)
    ensures
        n == crate::models::description::periods_or_one(opt_nat(min_periods)),
{
    match min_periods {
        Some(n) => n,
        None => 1,
    }
}

/// Plans a rolling statistic over `column`. Refused for a window without
/// samples.
pub fn plan_rolling(
    kind: RollingKind,
    column: &str,
    window_size: usize,
    center: bool,
    min_periods: Option<usize>,
) -> (plan: Result<RollingPlan, String>)
    ensures
        window_size < 1 ==> plan is Err && plan->Err_0@ == window_too_small_text(),
        window_size >= 1 ==> plan is Ok && plan->Ok_0.new_column@ == rolling_column(
            kind,
            column@,
            window_size as nat,
        ) && plan->Ok_0.window_size == window_size && plan->Ok_0.center == center
            && plan->Ok_0.min_periods == crate::models::description::periods_or_one(
            opt_nat(min_periods),
        ),
{
    check_window(window_size)?;
    let mut new_column = column.to_owned();
    new_column.append(kind.suffix_text());
    new_column.append(decimal_text(window_size).as_str());
    Ok(
        RollingPlan {
            new_column,
            window_size,
            min_periods: effective_min_periods(min_periods),
            center,
        },
    )
}

/// Plans a rolling quantile over `column`, where `quantile` is the
/// decimal text of the fraction. Refused for a window without samples.
pub fn plan_rolling_quantile(
    column: &str,
    window_size: usize,
    quantile: &str,
    center: bool,
    min_periods: Option<usize>,
) -> (plan: Result<RollingPlan, String>)
    ensures
        window_size < 1 ==> plan is Err && plan->Err_0@ == window_too_small_text(),
        window_size >= 1 ==> plan is Ok && plan->Ok_0.new_column@ == quantile_column(
            column@,
            window_size as nat,
            quantile@,
        ) && plan->Ok_0.window_size == window_size && plan->Ok_0.center == center
            && plan->Ok_0.min_periods == crate::models::description::periods_or_one(
            opt_nat(min_periods),
        ),
{
    check_window(window_size)?;
    let mut new_column = column.to_owned();
    new_column.append("_rolling_quantile_");
    new_column.append(decimal_text(window_size).as_str());
    new_column.append("_");
    new_column.append(quantile);
    Ok(
        RollingPlan {
            new_column,
            window_size,
            min_periods: effective_min_periods(min_periods),
            center,
        },
    )
}

/// The record of a rolling statistic.
pub fn rolling_operation(
    kind: RollingKind,
    column: String,
    window_size: usize,
    center: bool,
    min_periods: Option<usize>,
) -> (operation: OperationType)
    ensures
        operation@ == (OperationView::Rolling {
            kind,
            column: column@,
            window_size: window_size as nat,
            center,
            min_periods: opt_nat(min_periods),
        }),
{
    match kind {
        RollingKind::Average => OperationType::RollingAverage {
            column,
            window_size,
            center,
            min_periods,
        },
        RollingKind::Median => OperationType::RollingMedian {
            column,
            window_size,
            center,
            min_periods,
        },
        RollingKind::Sum => OperationType::RollingSum { column, window_size, center, min_periods },
        RollingKind::Min => OperationType::RollingMin { column, window_size, center, min_periods },
        RollingKind::Max => OperationType::RollingMax { column, window_size, center, min_periods },
        RollingKind::Std => OperationType::RollingStd { column, window_size, center, min_periods },
        RollingKind::Var => OperationType::RollingVar { column, window_size, center, min_periods },
    }
}

/// The types that a column can be cast to.
#[derive(Clone, Copy, Debug, PartialEq, Eq, Structural)]
pub enum CastTarget {
    Int8,
    Int16,
    Int32,
    Int64,
    UInt8,
    UInt16,
    UInt32,
    UInt64,
    Float32,
    Float64,
    String,
    Boolean,
    Date,
    /// A moment, counted in microseconds, without a time zone.
    Datetime,
    Time,
    /// A span of time, counted in microseconds.
    Duration,
}

/// The type that a name stands for.
pub open spec fn cast_target_of(name: Seq<char>) -> Option<CastTarget> {
    if name == "Int8"@ {
        Some(CastTarget::Int8)
    } else if name == "Int16"@ {
        Some(CastTarget::Int16)
    } else if name == "Int32"@ {
        Some(CastTarget::Int32)
    } else if name == "Int64"@ {
        Some(CastTarget::Int64)
    } else if name == "UInt8"@ {
        Some(CastTarget::UInt8)
    } else if name == "UInt16"@ {
        Some(CastTarget::UInt16)
    } else if name == "UInt32"@ {
        Some(CastTarget::UInt32)
    } else if name == "UInt64"@ {
        Some(CastTarget::UInt64)
    } else if name == "Float32"@ {
        Some(CastTarget::Float32)
    } else if name == "Float64"@ {
        Some(CastTarget::Float64)
    } else if name == "String"@ {
        Some(CastTarget::String)
    } else if name == "Boolean"@ {
        Some(CastTarget::Boolean)
    } else if name == "Date"@ {
        Some(CastTarget::Date)
    } else if name == "Datetime"@ {
        Some(CastTarget::Datetime)
    } else if name == "Time"@ {
        Some(CastTarget::Time)
    } else if name == "Duration"@ {
        Some(CastTarget::Duration)
    } else {
        None
    }
}

/// The words that refuse a type name.
pub open spec fn unsupported_type_text(name: Seq<char>) -> Seq<char> {
    "不支持的类型: "@ + name
}

/// Reads the name of a target type. Refused for a name that stands for
/// none.
pub fn parse_cast_target(name: &str) -> (target: Result<CastTarget, String>)
    ensures
        match cast_target_of(name@) {
            Some(t) => target == Ok::<CastTarget, String>(t),
            None => target is Err && target->Err_0@ == unsupported_type_text(name@),
        },
{
    if same_text(name, "Int8") {
        Ok(CastTarget::Int8)
    } else if same_text(name, "Int16") {
        Ok(CastTarget::Int16)
    } else if same_text(name, "Int32") {
        Ok(CastTarget::Int32)
    } else if same_text(name, "Int64") {
        Ok(CastTarget::Int64)
    } else if same_text(name, "UInt8") {
        Ok(CastTarget::UInt8)
    } else if same_text(name, "UInt16") {
        Ok(CastTarget::UInt16)
    } else if same_text(name, "UInt32") {
        Ok(CastTarget::UInt32)
    } else if same_text(name, "UInt64") {
        Ok(CastTarget::UInt64)
    } else if same_text(name, "Float32") {
        Ok(CastTarget::Float32)
    } else if same_text(name, "Float64") {
        Ok(CastTarget::Float64)
    } else if same_text(name, "String") {
        Ok(CastTarget::String)
    } else if same_text(name, "Boolean") {
        Ok(CastTarget::Boolean)
    } else if same_text(name, "Date") {
        Ok(CastTarget::Date)
    } else if same_text(name, "Datetime") {
        Ok(CastTarget::Datetime)
    } else if same_text(name, "Time") {
        Ok(CastTarget::Time)
    } else if same_text(name, "Duration") {
        Ok(CastTarget::Duration)
    } else {
        Err(concat2("不支持的类型: ", name))
    }
}

/// The casts of a mapping, in the mapping's order, where every type name
/// is known.
pub open spec fn cast_steps(mapping: Seq<(Seq<char>, Seq<char>)>) -> Seq<(Seq<char>, CastTarget)> {
    Seq::new(mapping.len(), |i: int| (mapping[i].0, cast_target_of(mapping[i].1)->0))
}

/// The views of planned casts, in order.
pub open spec fn step_views(steps: Seq<(String, CastTarget)>) -> Seq<(Seq<char>, CastTarget)> {
    Seq::new(steps.len(), |i: int| (steps[i].0@, steps[i].1))
}

/// The place of the first binding of a mapping whose type name is unknown.
pub open spec fn is_first_unknown(mapping: Seq<(Seq<char>, Seq<char>)>, i: int) -> bool {
    &&& 0 <= i < mapping.len()
    &&& cast_target_of(mapping[i].1) is None
    &&& forall|j: int| 0 <= j < i ==> cast_target_of(#[trigger] mapping[j].1) is Some
}

/// Plans the casts of a mapping from column names to type names: one
/// cast for each binding, in the mapping's order. Refused, in the words
/// for the first unknown name, where a type name is unknown.
pub fn plan_cast(mapping: &ColumnMapping) -> (plan: Result<Vec<(String, CastTarget)>, String>)
    ensures
        match plan {
            Ok(steps) => step_views(steps@) == cast_steps(mapping@) && forall|i: int|
                0 <= i < mapping@.len() ==> cast_target_of(#[trigger] mapping@[i].1) is Some,
            Err(message) => exists|i: int|
                is_first_unknown(mapping@, i) && message@ == unsupported_type_text(
                    mapping@[i].1,
                ),
        },
{
    let n = mapping.len();
    let mut steps: Vec<(String, CastTarget)> = Vec::new();
    let mut i: usize = 0;
    while i < n
        invariant
            i <= n,
            n == mapping@.len(),
            steps@.len() == i,
            forall|k: int| 0 <= k < i ==> cast_target_of(#[trigger] mapping@[k].1) is Some,
            forall|k: int|
                0 <= k < i ==> (#[trigger] steps@[k]).0@ == mapping@[k].0 && steps@[k].1
                    == cast_target_of(mapping@[k].1)->0,
        decreases n - i,
    {
        match parse_cast_target(mapping.value_at(i).as_str()) {
            Ok(target) => {
                steps.push((mapping.key_at(i).clone(), target));
            },
            Err(message) => {
                assert(is_first_unknown(mapping@, i as int));
                return Err(message);
            },
        }
        i = i + 1;
    }
    assert(step_views(steps@) =~= cast_steps(mapping@));
    Ok(steps)
}

/// The ways in which the engine fills missing values.
#[derive(Clone, Copy, Debug, PartialEq, Eq, Structural)]
pub enum EngineFill {
    Forward,
    Backward,
    Min,
    Max,
    Mean,
    Zero,
    One,
}

/// What the name of a fill strategy asks for: how the engine fills, and
/// what the history records. A fill with a constant is recorded with its
/// value and carried out as a forward fill.
pub open spec fn fill_plan_of(strategy: Seq<char>, value: Seq<char>) -> Option<
    (EngineFill, FillStrategyView),
> {
    if strategy == "forward"@ {
        Some((EngineFill::Forward, FillStrategyView::Forward))
    } else if strategy == "backward"@ {
        Some((EngineFill::Backward, FillStrategyView::Backward))
    } else if strategy == "min"@ {
        Some((EngineFill::Min, FillStrategyView::Min))
    } else if strategy == "max"@ {
        Some((EngineFill::Max, FillStrategyView::Max))
    } else if strategy == "mean"@ {
        Some((EngineFill::Mean, FillStrategyView::Mean))
    } else if strategy == "zero"@ {
        Some((EngineFill::Zero, FillStrategyView::Zero))
    } else if strategy == "one"@ {
        Some((EngineFill::One, FillStrategyView::One))
    } else if strategy == "constant"@ {
        Some((EngineFill::Forward, FillStrategyView::Constant { value }))
    } else {
        None
    }
}

/// The words that refuse the name of a fill strategy.
pub open spec fn unsupported_fill_text(strategy: Seq<char>) -> Seq<char> {
    "不支持的填充策略: "@ + strategy
}

/// The words that refuse a fill request without a strategy.
pub open spec fn missing_strategy_text() -> Seq<char> {
    "缺少 strategy 字段"@
}

/// Reads the name of a fill strategy; `value` is the constant that a
/// fill with a constant records. Refused for an unknown name.
pub fn plan_fill(strategy: &str, value: String) -> (plan: Result<(EngineFill, FillStrategy), String>)
    ensures
        match fill_plan_of(strategy@, value@) {
            Some(found) => plan is Ok && plan->Ok_0.0 == found.0 && plan->Ok_0.1@ == found.1,
            None => plan is Err && plan->Err_0@ == unsupported_fill_text(strategy@),
        },
{
    if same_text(strategy, "forward") {
        Ok((EngineFill::Forward, FillStrategy::Forward))
    } else if same_text(strategy, "backward") {
        Ok((EngineFill::Backward, FillStrategy::Backward))
    } else if same_text(strategy, "min") {
        Ok((EngineFill::Min, FillStrategy::Min))
    } else if same_text(strategy, "max") {
        Ok((EngineFill::Max, FillStrategy::Max))
    } else if same_text(strategy, "mean") {
        Ok((EngineFill::Mean, FillStrategy::Mean))
    } else if same_text(strategy, "zero") {
        Ok((EngineFill::Zero, FillStrategy::Zero))
    } else if same_text(strategy, "one") {
        Ok((EngineFill::One, FillStrategy::One))
    } else if same_text(strategy, "constant") {
        Ok((EngineFill::Forward, FillStrategy::Constant { value }))
    } else {
        Err(concat2("不支持的填充策略: ", strategy))
    }
}

/// Reads a fill request: the strategy's name, if the request has one,
/// and the constant, which is empty if the request has none. Refused
/// for a request without a strategy and for an unknown strategy.
pub fn plan_fill_request(strategy: Option<&str>, value: Option<String>) -> (plan: Result<
    (EngineFill, FillStrategy),
    String,
>)
    ensures
        match strategy {
            None => plan is Err && plan->Err_0@ == missing_strategy_text(),
            Some(name) => match fill_plan_of(
                name@,
                match value {
                    Some(v) => v@,
                    None => Seq::empty(),
                },
            ) {
                Some(found) => plan is Ok && plan->Ok_0.0 == found.0 && plan->Ok_0.1@ == found.1,
                None => plan is Err && plan->Err_0@ == unsupported_fill_text(name@),
            },
        },
{
    match strategy {
        None => Err("缺少 strategy 字段".to_string()),
        Some(name) => {
            let constant = match value {
                Some(v) => v,
                None => String::new(),
            };
            plan_fill(name, constant)
        },
    }
}

/// The columns to which a fill is confined: the named ones, or none
/// named, which stands for every column. An empty list names none.
pub fn fill_columns(columns: Option<Vec<String>>) -> (chosen: Option<Vec<String>>)
    ensures
        match columns {
            Some(list) => if list@.len() > 0 {
                chosen == Some(list)
            } else {
                chosen is None
            },
            None => chosen is None,
        },
{
    match columns {
        Some(list) => {
            if list.len() > 0 {
                Some(list)
            } else {
                None
            }
        },
        None => None,
    }
}

/// How the values that fall into one cell of a pivot become one.
#[derive(Clone, Copy, Debug, PartialEq, Eq, Structural)]
pub enum Aggregate {
    First,
    Last,
    Sum,
    Mean,
    Min,
    Max,
    Count,
    Median,
}

/// The aggregate that a name stands for.
pub open spec fn aggregate_of(name: Seq<char>) -> Option<Aggregate> {
    if name == "first"@ {
        Some(Aggregate::First)
    } else if name == "last"@ {
        Some(Aggregate::Last)
    } else if name == "sum"@ {
        Some(Aggregate::Sum)
    } else if name == "mean"@ {
        Some(Aggregate::Mean)
    } else if name == "min"@ {
        Some(Aggregate::Min)
    } else if name == "max"@ {
        Some(Aggregate::Max)
    } else if name == "count"@ {
        Some(Aggregate::Count)
    } else if name == "median"@ {
        Some(Aggregate::Median)
    } else {
        None
    }
}

/// The words that refuse the name of an aggregate.
pub open spec fn unsupported_aggregate_text(name: Seq<char>) -> Seq<char> {
    "不支持的聚合函数: "@ + name
}

/// Reads the name of the aggregate of a pivot; without a name the first
/// value of a cell is taken. Refused for an unknown name.
pub fn parse_aggregate(aggregate: Option<&str>) -> (parsed: Result<Aggregate, String>)
    ensures
        match aggregate {
            None => parsed == Ok::<Aggregate, String>(Aggregate::First),
            Some(name) => match aggregate_of(name@) {
                Some(a) => parsed == Ok::<Aggregate, String>(a),
                None => parsed is Err && parsed->Err_0@ == unsupported_aggregate_text(name@),
            },
        },
{
    match aggregate {
        None => Ok(Aggregate::First),
        Some(name) => {
            if same_text(name, "first") {
                Ok(Aggregate::First)
            } else if same_text(name, "last") {
                Ok(Aggregate::Last)
            } else if same_text(name, "sum") {
                Ok(Aggregate::Sum)
            } else if same_text(name, "mean") {
                Ok(Aggregate::Mean)
            } else if same_text(name, "min") {
                Ok(Aggregate::Min)
            } else if same_text(name, "max") {
                Ok(Aggregate::Max)
            } else if same_text(name, "count") {
                Ok(Aggregate::Count)
            } else if same_text(name, "median") {
                Ok(Aggregate::Median)
            } else {
                Err(concat2("不支持的聚合函数: ", name))
            }
        },
    }
}

/// The names of the two columns that an unpivot makes, and whether each
/// differs from the name that the engine gives.
#[derive(Debug)]
pub struct UnpivotPlan {
    /// The name of the column of former column names.
    pub variable_name: String,
    /// The name of the column of values.
    pub value_name: String,
    /// Whether the first column has to be renamed after the engine ran.
    pub rename_variable: bool,
    /// Whether the second column has to be renamed after the engine ran.
    pub rename_value: bool,
}

/// The name that is used where none is given.
pub open spec fn name_or(given: Option<Seq<char>>, default: Seq<char>) -> Seq<char> {
    match given {
        Some(name) => name,
        None => default,
    }
}

/// Plans the names of an unpivot: the given ones, or the engine's
/// `variable` and `value`.
pub fn plan_unpivot(variable_name: Option<String>, value_name: Option<String>) -> (plan:
    UnpivotPlan)
    ensures
        plan.variable_name@ == name_or(opt_view(variable_name), "variable"@),
        plan.value_name@ == name_or(opt_view(value_name), "value"@),
        plan.rename_variable == (plan.variable_name@ != "variable"@),
        plan.rename_value == (plan.value_name@ != "value"@),
{
    let variable = match variable_name {
        Some(name) => name,
        None => "variable".to_string(),
    };
    let value = match value_name {
        Some(name) => name,
        None => "value".to_string(),
    };
    let rename_variable = !same_text(variable.as_str(), "variable");
    let rename_value = !same_text(value.as_str(), "value");
    UnpivotPlan { variable_name: variable, value_name: value, rename_variable, rename_value }
}

} // verus!
