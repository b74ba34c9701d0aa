use data_analyst::commands::chart::{
    chart_dataset, check_columns, contains_name, plan_chart, requested_columns,
};
use data_analyst::commands::requests::{fill_request_from, keep_texts, read_fill_request};
use data_analyst::commands::plans::{
    check_window, effective_min_periods, fill_columns, parse_aggregate, parse_cast_target,
    plan_cast, plan_fill, plan_fill_request, plan_rolling, plan_rolling_quantile, plan_unpivot,
    rolling_operation, Aggregate, CastTarget, EngineFill,
};
use data_analyst::models::chart::{ChartConfig, ChartType};
use data_analyst::models::dataset::page_bounds;
use data_analyst::models::history::{FillStrategy, OperationType, RollingKind};
use data_analyst::models::mapping::ColumnMapping;

fn names(items: &[&str]) -> Vec<String> {
    items.iter().map(|s| s.to_string()).collect()
}

fn config(chart_type: ChartType) -> ChartConfig {
    ChartConfig {
        chart_type,
        x_column: None,
        y_columns: None,
        category_column: None,
        value_column: None,
        title: None,
        line_style: None,
        y_axis_right_columns: None,
        histogram_column: None,
        histogram_bins: None,
    }
}

#[test]
fn window_must_hold_a_sample() {
    assert_eq!(check_window(0), Err("窗口大小必须至少为 1".to_string()));
    assert_eq!(check_window(1), Ok(()));
    assert_eq!(check_window(30), Ok(()));
}

#[test]
fn rolling_plan_names_the_new_column() {
    let plan = plan_rolling(RollingKind::Average, "price", 7, true, None).unwrap();
    assert_eq!(plan.new_column, "price_rolling_avg_7");
    assert_eq!(plan.window_size, 7);
    assert_eq!(plan.min_periods, 1);
    assert!(plan.center);
    let plan = plan_rolling(RollingKind::Median, "p", 12, false, Some(4)).unwrap();
    assert_eq!(plan.new_column, "p_rolling_median_12");
    assert_eq!(plan.min_periods, 4);
    assert!(!plan.center);
    assert_eq!(
        plan_rolling(RollingKind::Sum, "p", 3, false, None).unwrap().new_column,
        "p_rolling_sum_3"
    );
    assert_eq!(
        plan_rolling(RollingKind::Min, "p", 3, false, None).unwrap().new_column,
        "p_rolling_min_3"
    );
    assert_eq!(
        plan_rolling(RollingKind::Max, "p", 3, false, None).unwrap().new_column,
        "p_rolling_max_3"
    );
    assert_eq!(
        plan_rolling(RollingKind::Std, "p", 3, false, None).unwrap().new_column,
        "p_rolling_std_3"
    );
    assert_eq!(
        plan_rolling(RollingKind::Var, "p", 3, false, None).unwrap().new_column,
        "p_rolling_var_3"
    );
    assert_eq!(
        plan_rolling(RollingKind::Var, "p", 0, false, None).unwrap_err(),
        "窗口大小必须至少为 1"
    );
}

#[test]
fn rolling_quantile_plan_names_the_new_column() {
    let quantile = format!("{}", 0.5f64);
    let plan = plan_rolling_quantile("p", 4, &quantile, false, Some(2)).unwrap();
    assert_eq!(plan.new_column, "p_rolling_quantile_4_0.5");
    assert_eq!(plan.min_periods, 2);
    assert_eq!(
        plan_rolling_quantile("p", 0, &quantile, false, None).unwrap_err(),
        "窗口大小必须至少为 1"
    );
}

#[test]
fn min_periods_default_to_one() {
    assert_eq!(effective_min_periods(None), 1);
    assert_eq!(effective_min_periods(Some(0)), 0);
    assert_eq!(effective_min_periods(Some(9)), 9);
}

#[test]
fn rolling_operation_records_the_kind() {
    let op = rolling_operation(RollingKind::Std, "c".to_string(), 3, true, Some(2));
    match op {
        OperationType::RollingStd { column, window_size, center, min_periods } => {
            assert_eq!(column, "c");
            assert_eq!(window_size, 3);
            assert!(center);
            assert_eq!(min_periods, Some(2));
        }
        _ => panic!("the record must be of the standard deviation"),
    }
    assert!(matches!(
        rolling_operation(RollingKind::Average, "c".to_string(), 1, false, None),
        OperationType::RollingAverage { .. }
    ));
    assert!(matches!(
        rolling_operation(RollingKind::Median, "c".to_string(), 1, false, None),
        OperationType::RollingMedian { .. }
    ));
    assert!(matches!(
        rolling_operation(RollingKind::Sum, "c".to_string(), 1, false, None),
        OperationType::RollingSum { .. }
    ));
    assert!(matches!(
        rolling_operation(RollingKind::Min, "c".to_string(), 1, false, None),
        OperationType::RollingMin { .. }
    ));
    assert!(matches!(
        rolling_operation(RollingKind::Max, "c".to_string(), 1, false, None),
        OperationType::RollingMax { .. }
    ));
    assert!(matches!(
        rolling_operation(RollingKind::Var, "c".to_string(), 1, false, None),
        OperationType::RollingVar { .. }
    ));
}

#[test]
fn cast_targets_are_read_by_name() {
    let cases = vec![
        ("Int8", CastTarget::Int8),
        ("Int16", CastTarget::Int16),
        ("Int32", CastTarget::Int32),
        ("Int64", CastTarget::Int64),
        ("UInt8", CastTarget::UInt8),
        ("UInt16", CastTarget::UInt16),
        ("UInt32", CastTarget::UInt32),
        ("UInt64", CastTarget::UInt64),
        ("Float32", CastTarget::Float32),
        ("Float64", CastTarget::Float64),
        ("String", CastTarget::String),
        ("Boolean", CastTarget::Boolean),
        ("Date", CastTarget::Date),
        ("Datetime", CastTarget::Datetime),
        ("Time", CastTarget::Time),
        ("Duration", CastTarget::Duration),
    ];
    for (name, target) in cases {
        assert_eq!(parse_cast_target(name), Ok(target));
    }
    assert_eq!(parse_cast_target("int64"), Err("不支持的类型: int64".to_string()));
    assert_eq!(parse_cast_target(""), Err("不支持的类型: ".to_string()));
}

#[test]
fn cast_plan_follows_the_mapping() {
    let mut mapping = ColumnMapping::new();
    mapping.insert("a".to_string(), "Int64".to_string());
    mapping.insert("b".to_string(), "String".to_string());
    let plan = plan_cast(&mapping).unwrap();
    assert_eq!(
        plan,
        vec![("a".to_string(), CastTarget::Int64), ("b".to_string(), CastTarget::String)]
    );
    mapping.insert("c".to_string(), "Complex".to_string());
    mapping.insert("d".to_string(), "Other".to_string());
    assert_eq!(plan_cast(&mapping), Err("不支持的类型: Complex".to_string()));
    assert_eq!(plan_cast(&ColumnMapping::new()), Ok(vec![]));
}

#[test]
fn fill_strategies_are_read_by_name() {
    let cases = vec![
        ("forward", EngineFill::Forward),
        ("backward", EngineFill::Backward),
        ("min", EngineFill::Min),
        ("max", EngineFill::Max),
        ("mean", EngineFill::Mean),
        ("zero", EngineFill::Zero),
        ("one", EngineFill::One),
        ("constant", EngineFill::Forward),
    ];
    for (name, engine) in cases {
        let (fill, _) = plan_fill(name, "7".to_string()).unwrap();
        assert_eq!(fill, engine);
    }
    assert!(matches!(plan_fill("forward", String::new()).unwrap().1, FillStrategy::Forward));
    assert!(matches!(plan_fill("backward", String::new()).unwrap().1, FillStrategy::Backward));
    assert!(matches!(plan_fill("min", String::new()).unwrap().1, FillStrategy::Min));
    assert!(matches!(plan_fill("max", String::new()).unwrap().1, FillStrategy::Max));
    assert!(matches!(plan_fill("mean", String::new()).unwrap().1, FillStrategy::Mean));
    assert!(matches!(plan_fill("zero", String::new()).unwrap().1, FillStrategy::Zero));
    assert!(matches!(plan_fill("one", String::new()).unwrap().1, FillStrategy::One));
    match plan_fill("constant", "7".to_string()).unwrap().1 {
        FillStrategy::Constant { value } => assert_eq!(value, "7"),
        _ => panic!("a fill with a constant must be recorded with its value"),
    }
    assert_eq!(
        plan_fill("median", String::new()).unwrap_err(),
        "不支持的填充策略: median"
    );
}

#[test]
fn fill_request_needs_a_strategy() {
    assert_eq!(plan_fill_request(None, None).unwrap_err(), "缺少 strategy 字段");
    assert!(plan_fill_request(Some("zero"), None).is_ok());
    match plan_fill_request(Some("constant"), None).unwrap().1 {
        FillStrategy::Constant { value } => assert_eq!(value, ""),
        _ => panic!("a fill with a constant must be recorded as one"),
    }
    assert_eq!(
        plan_fill_request(Some("nearest"), Some("1".to_string())).unwrap_err(),
        "不支持的填充策略: nearest"
    );
}

#[test]
fn fill_columns_ignore_an_empty_list() {
    assert_eq!(fill_columns(None), None);
    assert_eq!(fill_columns(Some(vec![])), None);
    assert_eq!(fill_columns(Some(names(&["a"]))), Some(names(&["a"])));
}

#[test]
fn aggregates_are_read_by_name() {
    assert_eq!(parse_aggregate(None), Ok(Aggregate::First));
    assert_eq!(parse_aggregate(Some("first")), Ok(Aggregate::First));
    assert_eq!(parse_aggregate(Some("last")), Ok(Aggregate::Last));
    assert_eq!(parse_aggregate(Some("sum")), Ok(Aggregate::Sum));
    assert_eq!(parse_aggregate(Some("mean")), Ok(Aggregate::Mean));
    assert_eq!(parse_aggregate(Some("min")), Ok(Aggregate::Min));
    assert_eq!(parse_aggregate(Some("max")), Ok(Aggregate::Max));
    assert_eq!(parse_aggregate(Some("count")), Ok(Aggregate::Count));
    assert_eq!(parse_aggregate(Some("median")), Ok(Aggregate::Median));
    assert_eq!(parse_aggregate(Some("mode")), Err("不支持的聚合函数: mode".to_string()));
}

#[test]
fn unpivot_names_default_to_the_engines() {
    let plan = plan_unpivot(None, None);
    assert_eq!(plan.variable_name, "variable");
    assert_eq!(plan.value_name, "value");
    assert!(!plan.rename_variable);
    assert!(!plan.rename_value);
    let plan = plan_unpivot(Some("year".to_string()), Some("value".to_string()));
    assert_eq!(plan.variable_name, "year");
    assert!(plan.rename_variable);
    assert!(!plan.rename_value);
    let plan = plan_unpivot(Some("variable".to_string()), Some("amount".to_string()));
    assert!(!plan.rename_variable);
    assert!(plan.rename_value);
    assert_eq!(plan.value_name, "amount");
}

#[test]
fn page_bounds_are_cut_to_the_table() {
    assert_eq!(page_bounds(0, 100, 1000), (0, 100));
    assert_eq!(page_bounds(950, 100, 1000), (950, 50));
    assert_eq!(page_bounds(1000, 100, 1000), (1000, 0));
    assert_eq!(page_bounds(5000, 100, 1000), (1000, 0));
    assert_eq!(page_bounds(0, 0, 10), (0, 0));
    assert_eq!(page_bounds(3, usize::MAX, 10), (3, 7));
    assert_eq!(page_bounds(usize::MAX, usize::MAX, 10), (10, 0));
    assert_eq!(page_bounds(0, 5, 0), (0, 0));
}

#[test]
fn contains_name_finds_names() {
    let available = names(&["a", "b"]);
    assert!(contains_name(&available, "a"));
    assert!(contains_name(&available, "b"));
    assert!(!contains_name(&available, "c"));
    assert!(!contains_name(&vec![], "a"));
}

#[test]
fn check_columns_names_the_first_missing() {
    let available = names(&["a", "b", "c"]);
    assert_eq!(check_columns(&names(&["c", "a"]), &available), Ok(()));
    assert_eq!(check_columns(&names(&[]), &available), Ok(()));
    assert_eq!(
        check_columns(&names(&["a", "x", "y"]), &available),
        Err("列 'x' 不存在".to_string())
    );
}

#[test]
fn axis_chart_needs_both_axes() {
    let mut request = config(ChartType::Line);
    assert_eq!(
        requested_columns(&request).unwrap_err(),
        "折线图/柱状图/散点图需要指定 x_column"
    );
    request.x_column = Some("date".to_string());
    assert_eq!(
        requested_columns(&request).unwrap_err(),
        "折线图/柱状图/散点图需要指定 y_columns"
    );
    request.y_columns = Some(vec![]);
    assert_eq!(requested_columns(&request).unwrap_err(), "至少需要选择一个 Y 轴列");
    request.y_columns = Some(names(&["sales", "profit"]));
    assert_eq!(requested_columns(&request).unwrap(), names(&["date", "sales", "profit"]));
    let available = names(&["date", "sales", "profit", "other"]);
    let plan = plan_chart(&request, &available).unwrap();
    assert_eq!(plan.columns, names(&["date", "sales", "profit"]));
    assert_eq!(plan.bins, 10);
    assert_eq!(
        plan_chart(&request, &names(&["date", "profit"])).unwrap_err(),
        "列 'sales' 不存在"
    );
    let mut bar = config(ChartType::Bar);
    bar.x_column = Some("date".to_string());
    bar.y_columns = Some(names(&["sales"]));
    assert_eq!(plan_chart(&bar, &available).unwrap().columns, names(&["date", "sales"]));
    let scatter = config(ChartType::Scatter);
    assert_eq!(
        plan_chart(&scatter, &available).unwrap_err(),
        "折线图/柱状图/散点图需要指定 x_column"
    );
}

#[test]
fn pie_chart_needs_category_and_value() {
    let mut request = config(ChartType::Pie);
    assert_eq!(requested_columns(&request).unwrap_err(), "饼图需要指定 category_column");
    request.category_column = Some("kind".to_string());
    assert_eq!(requested_columns(&request).unwrap_err(), "饼图需要指定 value_column");
    request.value_column = Some("amount".to_string());
    assert_eq!(requested_columns(&request).unwrap(), names(&["kind", "amount"]));
    assert_eq!(plan_chart(&request, &names(&["kind"])).unwrap_err(), "列 'amount' 不存在");
}

#[test]
fn histogram_needs_column_and_bins() {
    let mut request = config(ChartType::Histogram);
    assert_eq!(requested_columns(&request).unwrap_err(), "直方图需要指定 histogram_column");
    request.histogram_column = Some("age".to_string());
    request.histogram_bins = Some(0);
    assert_eq!(requested_columns(&request).unwrap_err(), "直方图分箱数量必须大于 0");
    assert_eq!(plan_chart(&request, &names(&[])).unwrap_err(), "直方图分箱数量必须大于 0");
    request.histogram_bins = Some(25);
    let plan = plan_chart(&request, &names(&["age"])).unwrap();
    assert_eq!(plan.columns, names(&["age"]));
    assert_eq!(plan.bins, 25);
    request.histogram_bins = None;
    assert_eq!(plan_chart(&request, &names(&["age"])).unwrap().bins, 10);
    assert_eq!(plan_chart(&request, &names(&["height"])).unwrap_err(), "列 'age' 不存在");
}

#[test]
fn chart_config_clone_keeps_fields() {
    let mut request = config(ChartType::Line);
    request.x_column = Some("date".to_string());
    request.y_columns = Some(names(&["a", "b"]));
    request.title = Some("t".to_string());
    request.histogram_bins = Some(3);
    let copy = request.clone();
    assert_eq!(copy.chart_type, ChartType::Line);
    assert_eq!(copy.x_column, Some("date".to_string()));
    assert_eq!(copy.y_columns, Some(names(&["a", "b"])));
    assert_eq!(copy.title, Some("t".to_string()));
    assert_eq!(copy.category_column, None);
    assert_eq!(copy.histogram_bins, Some(3));
}

#[test]
fn chart_dataset_begins_with_the_header() {
    let rows = vec![
        vec![serde_json::Value::from("2024-01"), serde_json::Value::from(100)],
        vec![serde_json::Value::from("2024-02"), serde_json::Value::Null],
    ];
    let data = chart_dataset(ChartType::Bar, &names(&["date", "sales"]), rows.clone());
    assert_eq!(data.chart_type, ChartType::Bar);
    assert_eq!(data.data_count, 2);
    assert_eq!(data.dataset.len(), 3);
    assert_eq!(
        data.dataset[0],
        vec![
            serde_json::Value::String("date".to_string()),
            serde_json::Value::String("sales".to_string())
        ]
    );
    assert_eq!(data.dataset[1], rows[0]);
    assert_eq!(data.dataset[2], rows[1]);
    let empty = chart_dataset(ChartType::Pie, &names(&[]), vec![]);
    assert_eq!(empty.data_count, 0);
    assert_eq!(empty.dataset, vec![Vec::<serde_json::Value>::new()]);
}

#[test]
fn keep_texts_drops_what_is_no_text() {
    let items = vec![Some("a".to_string()), None, Some("b".to_string()), None];
    assert_eq!(keep_texts(items), names(&["a", "b"]));
    assert!(keep_texts(vec![None, None]).is_empty());
    assert!(keep_texts(vec![]).is_empty());
}

#[test]
fn fill_request_is_put_together() {
    let made = fill_request_from(
        Some("constant".to_string()),
        Some(vec![Some("a".to_string()), None]),
        Some("9".to_string()),
    )
    .unwrap();
    assert_eq!(made.engine, EngineFill::Forward);
    assert_eq!(made.columns, Some(names(&["a"])));
    match made.record {
        FillStrategy::Constant { value } => assert_eq!(value, "9"),
        _ => panic!("a fill with a constant must be recorded as one"),
    }
    let all = fill_request_from(Some("mean".to_string()), Some(vec![None]), None).unwrap();
    assert_eq!(all.engine, EngineFill::Mean);
    assert_eq!(all.columns, None);
    assert_eq!(fill_request_from(None, None, None).unwrap_err(), "缺少 strategy 字段");
}

#[test]
fn fill_request_is_read_from_json() {
    let request: serde_json::Value = serde_json::from_str(
        r#"{"strategy": "backward", "columns": ["x", 3, "y"], "value": "0"}"#,
    )
    .unwrap();
    let made = read_fill_request(&request).unwrap();
    assert_eq!(made.engine, EngineFill::Backward);
    assert!(matches!(made.record, FillStrategy::Backward));
    assert_eq!(made.columns, Some(names(&["x", "y"])));

    let constant: serde_json::Value =
        serde_json::from_str(r#"{"strategy": "constant", "columns": []}"#).unwrap();
    let made = read_fill_request(&constant).unwrap();
    assert_eq!(made.columns, None);
    match made.record {
        FillStrategy::Constant { value } => assert_eq!(value, ""),
        _ => panic!("a fill with a constant must be recorded as one"),
    }

    let missing: serde_json::Value = serde_json::from_str(r#"{"columns": ["x"]}"#).unwrap();
    assert_eq!(read_fill_request(&missing).unwrap_err(), "缺少 strategy 字段");
    let number: serde_json::Value = serde_json::from_str(r#"{"strategy": 1}"#).unwrap();
    assert_eq!(read_fill_request(&number).unwrap_err(), "缺少 strategy 字段");
    let unknown: serde_json::Value = serde_json::from_str(r#"{"strategy": "median"}"#).unwrap();
    assert_eq!(read_fill_request(&unknown).unwrap_err(), "不支持的填充策略: median");
    assert_eq!(
        read_fill_request(&serde_json::Value::Null).unwrap_err(),
        "缺少 strategy 字段"
    );
}
