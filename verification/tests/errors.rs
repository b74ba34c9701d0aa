use data_analyst::error::{classify_message, DataAnalystError, ErrorKind};
use data_analyst::text::same_text;

#[test]
fn messages_carry_label_and_detail() {
    assert_eq!(
        DataAnalystError::FileReadError("a.csv".to_string()).message(),
        "Failed to read file: a.csv"
    );
    assert_eq!(
        DataAnalystError::CsvParseError("line 3".to_string()).message(),
        "Failed to parse CSV: line 3"
    );
    assert_eq!(
        DataAnalystError::ExcelParseError("No sheets found".to_string()).message(),
        "Failed to parse Excel: No sheets found"
    );
    assert_eq!(
        DataAnalystError::DatasetNotFound("x".to_string()).message(),
        "Dataset not found: x"
    );
    assert_eq!(
        DataAnalystError::InvalidDataFormat("Empty Excel sheet".to_string()).message(),
        "Invalid data format: Empty Excel sheet"
    );
    assert_eq!(DataAnalystError::PolarsError("boom".to_string()).message(), "Polars error: boom");
    assert_eq!(
        DataAnalystError::InvalidOperation("没有数据".to_string()).message(),
        "Invalid operation: 没有数据"
    );
}

#[test]
fn io_error_is_carried_and_shown() {
    let io = std::io::Error::new(std::io::ErrorKind::Other, "disk gone");
    let error = DataAnalystError::from(io);
    assert!(matches!(error, DataAnalystError::IoError(_)));
    assert_eq!(error.message(), "IO error: disk gone");
    assert_eq!(error.kind(), None);
}

#[test]
fn json_error_is_carried_and_shown() {
    let failed: Result<serde_json::Value, serde_json::Error> = serde_json::from_str("{");
    let json = failed.unwrap_err();
    let expected = format!("Serialization error: {}", json);
    let error = DataAnalystError::from(json);
    assert!(matches!(error, DataAnalystError::SerializationError(_)));
    assert_eq!(error.message(), expected);
}

#[test]
fn engine_and_workbook_errors_become_text() {
    let engine = polars::error::PolarsError::ComputeError("bad cast".into());
    let error = DataAnalystError::from(engine);
    match &error {
        DataAnalystError::PolarsError(text) => assert_eq!(text, "bad cast"),
        _ => panic!("an engine error must become a PolarsError"),
    }
    assert_eq!(error.message(), "Polars error: bad cast");
    let workbook = calamine::Error::Msg("no such sheet");
    let expected = workbook.to_string();
    match DataAnalystError::from(workbook) {
        DataAnalystError::ExcelParseError(text) => assert_eq!(text, expected),
        _ => panic!("a workbook error must become an ExcelParseError"),
    }
    let xlsx = calamine::XlsxError::FileNotFound("sheet1.xml".to_string());
    let expected = xlsx.to_string();
    match DataAnalystError::from(xlsx) {
        DataAnalystError::ExcelParseError(text) => assert_eq!(text, expected),
        _ => panic!("an xlsx error must become an ExcelParseError"),
    }
}

#[test]
fn error_converts_to_its_message() {
    let text: String = DataAnalystError::DatasetNotFound("d".to_string()).into();
    assert_eq!(text, "Dataset not found: d");
}

#[test]
fn store_errors_have_kinds() {
    assert_eq!(DataAnalystError::no_data().kind(), Some(ErrorKind::NoData));
    assert_eq!(DataAnalystError::at_earliest().kind(), Some(ErrorKind::AtBoundary));
    assert_eq!(DataAnalystError::at_latest().kind(), Some(ErrorKind::AtBoundary));
    assert_eq!(DataAnalystError::empty_history().kind(), Some(ErrorKind::EmptyHistory));
    assert_eq!(DataAnalystError::entry_not_found("abc").kind(), Some(ErrorKind::EntryNotFound));
    assert_eq!(DataAnalystError::entry_not_found("").kind(), Some(ErrorKind::EntryNotFound));
    assert_eq!(DataAnalystError::InvalidOperation("other".to_string()).kind(), None);
    assert_eq!(DataAnalystError::PolarsError("没有数据".to_string()).kind(), None);
    assert_eq!(
        DataAnalystError::entry_not_found("abc").message(),
        "Invalid operation: 找不到历史节点: abc"
    );
}

#[test]
fn messages_are_classified() {
    assert_eq!(
        classify_message("Failed to lock data store: poisoned lock"),
        Some(ErrorKind::LockFailure)
    );
    assert_eq!(classify_message("Invalid operation: 没有数据"), Some(ErrorKind::NoData));
    assert_eq!(
        classify_message("Invalid operation: 已经在最早状态，无法撤销"),
        Some(ErrorKind::AtBoundary)
    );
    assert_eq!(
        classify_message("Invalid operation: 已经在最新状态，无法重做"),
        Some(ErrorKind::AtBoundary)
    );
    assert_eq!(
        classify_message("Invalid operation: 没有历史记录"),
        Some(ErrorKind::EmptyHistory)
    );
    assert_eq!(
        classify_message("Invalid operation: 找不到历史节点: 42"),
        Some(ErrorKind::EntryNotFound)
    );
    assert_eq!(classify_message("Invalid operation: something else"), None);
    assert_eq!(classify_message("没有数据"), None);
    assert_eq!(classify_message(""), None);
}

#[test]
fn same_text_compares_characters() {
    assert!(same_text("没有数据", "没有数据"));
    assert!(!same_text("没有数据", "没有"));
    assert!(same_text("", ""));
}
