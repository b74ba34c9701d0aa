use data_analyst::models::history::{FillStrategy, OperationType};
use data_analyst::models::mapping::ColumnMapping;
use data_analyst::text::{decimal_text, join_text, starts_with};

fn names(items: &[&str]) -> Vec<String> {
    items.iter().map(|s| s.to_string()).collect()
}

#[test]
fn decimal_text_writes_numbers() {
    assert_eq!(decimal_text(0), "0");
    assert_eq!(decimal_text(7), "7");
    assert_eq!(decimal_text(10), "10");
    assert_eq!(decimal_text(1234567890), "1234567890");
    assert_eq!(decimal_text(usize::MAX), usize::MAX.to_string());
}

#[test]
fn join_text_puts_separator_between() {
    assert_eq!(join_text(&names(&[]), ", "), "");
    assert_eq!(join_text(&names(&["a"]), ", "), "a");
    assert_eq!(join_text(&names(&["a", "b", "c"]), ", "), "a, b, c");
    assert_eq!(join_text(&names(&["", ""]), "-"), "-");
}

#[test]
fn starts_with_compares_characters() {
    assert!(starts_with("找不到历史节点: x", "找不到历史节点: "));
    assert!(!starts_with("找不到", "找不到历史节点: "));
    assert!(starts_with("abc", ""));
    assert!(!starts_with("abd", "abc"));
}

#[test]
fn import_is_described_by_file_name() {
    let op = OperationType::Import { file_path: "/data/sales.csv".to_string() };
    assert_eq!(op.description(), "导入文件: sales.csv");
    assert_eq!(op.description_with(Some("x.csv")), "导入文件: x.csv");
    assert_eq!(op.description_with(None), "导入文件: 未知文件");
    let bare = OperationType::Import { file_path: "..".to_string() };
    assert_eq!(bare.description(), "导入文件: 未知文件");
}

#[test]
fn unpivot_is_described_with_counts() {
    let op = OperationType::Unpivot {
        id_vars: names(&["name"]),
        value_vars: names(&["2020", "2021"]),
        variable_name: "variable".to_string(),
        value_name: "value".to_string(),
        sort_column: None,
    };
    assert_eq!(op.description(), "横表转纵表 (标识列: 1, 值列: 2)");
    let sorted = OperationType::Unpivot {
        id_vars: names(&["name"]),
        value_vars: names(&["2020", "2021"]),
        variable_name: "variable".to_string(),
        value_name: "value".to_string(),
        sort_column: Some("name".to_string()),
    };
    assert_eq!(sorted.description(), "横表转纵表 (标识列: 1, 值列: 2) [按 name 排序]");
}

#[test]
fn pivot_is_described_with_its_columns() {
    let op = OperationType::Pivot {
        index: names(&["a", "b"]),
        columns: "year".to_string(),
        values: "amount".to_string(),
    };
    assert_eq!(op.description(), "纵表转横表 (索引: a, b, 列: year, 值: amount)");
}

#[test]
fn column_operations_are_described_with_counts() {
    let some = OperationType::DropNulls { subset: Some(names(&["a", "b", "c"])) };
    assert_eq!(some.description(), "删除空值行 (检查 3 列)");
    let all = OperationType::DropNulls { subset: None };
    assert_eq!(all.description(), "删除空值行 (检查所有列)");
    assert_eq!(OperationType::DropAllNulls.description(), "删除全空行");
    let select = OperationType::SelectColumns { columns: names(&["a", "b"]) };
    assert_eq!(select.description(), "选择列 (2 列)");
    let drop = OperationType::DropColumns { columns: names(&[]) };
    assert_eq!(drop.description(), "删除列 (0 列)");
    let mut mapping = ColumnMapping::new();
    mapping.insert("a".to_string(), "x".to_string());
    mapping.insert("b".to_string(), "y".to_string());
    mapping.insert("a".to_string(), "z".to_string());
    let rename = OperationType::RenameColumns { mapping: mapping.clone() };
    assert_eq!(rename.description(), "重命名列 (2 列)");
    let cast = OperationType::CastTypes { mapping };
    assert_eq!(cast.description(), "转换列类型 (2 列)");
    let filter = OperationType::Filter { expression: "a > 1".to_string() };
    assert_eq!(filter.description(), "筛选过滤");
}

#[test]
fn fill_null_is_described_by_strategy() {
    let cases = vec![
        (FillStrategy::Constant { value: "0".to_string() }, "空值填充 (常量)"),
        (FillStrategy::Forward, "空值填充 (向前填充)"),
        (FillStrategy::Backward, "空值填充 (向后填充)"),
        (FillStrategy::Mean, "空值填充 (平均值)"),
        (FillStrategy::Median, "空值填充 (中位数)"),
        (FillStrategy::Min, "空值填充 (最小值)"),
        (FillStrategy::Max, "空值填充 (最大值)"),
        (FillStrategy::Zero, "空值填充 (0)"),
        (FillStrategy::One, "空值填充 (1)"),
    ];
    for (strategy, expected) in cases {
        assert_eq!(OperationType::FillNull { strategy }.description(), expected);
    }
}

#[test]
fn rolling_statistics_are_described() {
    let avg = OperationType::RollingAverage {
        column: "price".to_string(),
        window_size: 7,
        center: true,
        min_periods: None,
    };
    assert_eq!(avg.description(), "移动平均 (列: price, 窗口: 7, 居中: 是, 最小样本: 1)");
    let median = OperationType::RollingMedian {
        column: "price".to_string(),
        window_size: 12,
        center: false,
        min_periods: Some(3),
    };
    assert_eq!(median.description(), "移动中位数 (列: price, 窗口: 12, 居中: 否, 最小样本: 3)");
    let sum = OperationType::RollingSum {
        column: "c".to_string(),
        window_size: 2,
        center: false,
        min_periods: Some(0),
    };
    assert_eq!(sum.description(), "移动求和 (列: c, 窗口: 2, 居中: 否, 最小样本: 0)");
    let min = OperationType::RollingMin {
        column: "c".to_string(),
        window_size: 2,
        center: false,
        min_periods: None,
    };
    assert_eq!(min.description(), "移动最小值 (列: c, 窗口: 2, 居中: 否, 最小样本: 1)");
    let max = OperationType::RollingMax {
        column: "c".to_string(),
        window_size: 2,
        center: false,
        min_periods: None,
    };
    assert_eq!(max.description(), "移动最大值 (列: c, 窗口: 2, 居中: 否, 最小样本: 1)");
    let std = OperationType::RollingStd {
        column: "c".to_string(),
        window_size: 2,
        center: false,
        min_periods: None,
    };
    assert_eq!(std.description(), "移动标准差 (列: c, 窗口: 2, 居中: 否, 最小样本: 1)");
    let var = OperationType::RollingVar {
        column: "c".to_string(),
        window_size: 2,
        center: false,
        min_periods: None,
    };
    assert_eq!(var.description(), "移动方差 (列: c, 窗口: 2, 居中: 否, 最小样本: 1)");
    let quantile = OperationType::RollingQuantile {
        column: "c".to_string(),
        window_size: 5,
        quantile: format!("{}", 0.25f64),
        center: true,
        min_periods: Some(2),
    };
    assert_eq!(
        quantile.description(),
        "移动分位数 (列: c, 窗口: 5, 分位: 0.25, 居中: 是, 最小样本: 2)"
    );
}

#[test]
fn operation_clone_keeps_description() {
    let op = OperationType::Pivot {
        index: names(&["a", "b"]),
        columns: "year".to_string(),
        values: "amount".to_string(),
    };
    let copy = op.clone();
    assert_eq!(copy.description(), op.description());
    match copy {
        OperationType::Pivot { index, columns, values } => {
            assert_eq!(index, names(&["a", "b"]));
            assert_eq!(columns, "year");
            assert_eq!(values, "amount");
        }
        _ => panic!("a copy must be of the same variant"),
    }
}

#[test]
fn column_mapping_binds_each_name_once() {
    let mut mapping = ColumnMapping::new();
    assert_eq!(mapping.len(), 0);
    assert!(mapping.get("a").is_none());
    mapping.insert("a".to_string(), "1".to_string());
    mapping.insert("b".to_string(), "2".to_string());
    mapping.insert("a".to_string(), "3".to_string());
    assert_eq!(mapping.len(), 2);
    assert_eq!(mapping.get("a"), Some(&"3".to_string()));
    assert_eq!(mapping.get("b"), Some(&"2".to_string()));
    assert_eq!(mapping.get("c"), None);
    assert_eq!(mapping.position("b"), Some(1));
    assert_eq!(mapping.key_at(0), "a");
    assert_eq!(mapping.value_at(0), "3");
    let copy = mapping.clone();
    assert_eq!(copy.len(), 2);
    assert_eq!(copy.get("a"), Some(&"3".to_string()));
}
