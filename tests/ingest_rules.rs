use data_frame_service::blueprint::TradingSystemExample;
use data_frame_service::ingest::{
    price_fields, timestamps_of, validate_series_timestamps, validate_timestamp, ColumnType,
    FrameTail, ValidationError,
};
use data_frame_service::retrieval::{parse_row_limit, projection_ready, RowMinimums};

#[test]
fn empty_frame_takes_any_row() {
    assert_eq!(validate_timestamp(Some(100), FrameTail::Empty), Ok(true));
    assert_eq!(validate_timestamp(None, FrameTail::Empty), Ok(true));
}

#[test]
fn later_row_is_taken() {
    assert_eq!(validate_timestamp(Some(201), FrameTail::Last(200)), Ok(true));
}

#[test]
fn out_of_order_row_is_refused() {
    assert_eq!(validate_timestamp(Some(150), FrameTail::Last(200)), Ok(false));
    assert_eq!(validate_timestamp(Some(200), FrameTail::Last(200)), Ok(false));
}

#[test]
fn row_validation_errors() {
    assert_eq!(validate_timestamp(None, FrameTail::Last(200)), Err(ValidationError::MissingTimestamp));
    assert_eq!(
        validate_timestamp(Some(300), FrameTail::Unreadable),
        Err(ValidationError::UnreadableTimestamp)
    );
}

#[test]
fn series_validation() {
    assert_eq!(validate_series_timestamps(&vec![201, 202, 205], FrameTail::Last(200)), Ok(true));
    assert_eq!(validate_series_timestamps(&vec![200, 202], FrameTail::Last(200)), Ok(false));
    assert_eq!(validate_series_timestamps(&vec![201, 203, 202], FrameTail::Last(200)), Ok(false));
    assert_eq!(validate_series_timestamps(&vec![5, 5], FrameTail::Empty), Ok(false));
    assert_eq!(validate_series_timestamps(&vec![5], FrameTail::Empty), Ok(true));
    assert_eq!(
        validate_series_timestamps(&vec![], FrameTail::Empty),
        Err(ValidationError::EmptySeries)
    );
    assert_eq!(
        validate_series_timestamps(&vec![9], FrameTail::Unreadable),
        Err(ValidationError::UnreadableTimestamp)
    );
}

#[test]
fn batch_timestamps() {
    assert_eq!(timestamps_of(&vec![Some(1), Some(2)]), Ok(vec![1, 2]));
    assert_eq!(timestamps_of(&vec![]), Ok(vec![]));
    assert_eq!(timestamps_of(&vec![Some(1), None]), Err(ValidationError::MissingTimestamp));
}

#[test]
fn raw_price_columns() {
    let fields = price_fields();
    let names: Vec<&str> = fields.iter().map(|f| f.name.as_str()).collect();
    assert_eq!(names, vec!["instrument_id", "open", "high", "low", "close", "volume", "timestamp"]);
    assert_eq!(fields[0].dtype, ColumnType::Utf8);
    assert_eq!(fields[4].dtype, ColumnType::Float64);
    assert_eq!(fields[6].dtype, ColumnType::UInt64);
}

#[test]
fn momentum_example_columns() {
    let fields = TradingSystemExample::schema_fields();
    assert_eq!(fields.len(), 9);
    assert_eq!(fields[7].name, "5_period_high_close");
    assert_eq!(fields[7].dtype, ColumnType::Float64);
    assert_eq!(fields[8].name, "5_period_highest_close");
    assert_eq!(fields[8].dtype, ColumnType::Boolean);
}

#[test]
fn row_limits() {
    assert_eq!(parse_row_limit("10"), Some(10));
    assert_eq!(parse_row_limit("+7"), Some(7));
    assert_eq!(parse_row_limit("0"), Some(0));
    assert_eq!(parse_row_limit("4294967295"), Some(u32::MAX));
    assert_eq!(parse_row_limit("4294967296"), None);
    assert_eq!(parse_row_limit("99999999999999999999"), None);
    assert_eq!(parse_row_limit(""), None);
    assert_eq!(parse_row_limit("+"), None);
    assert_eq!(parse_row_limit("-1"), None);
    assert_eq!(parse_row_limit("12a"), None);
    assert_eq!(parse_row_limit(" 1"), None);
}

#[test]
fn row_limit_agrees_with_std() {
    for s in ["1", "+0012", "abc", "4294967295", "4294967296", "+", ""] {
        assert_eq!(parse_row_limit(s), s.parse::<u32>().ok());
    }
}

#[test]
fn row_minimums_registry() {
    let mut minimums = RowMinimums::new();
    assert_eq!(minimums.get("mom"), None);
    minimums.set("mom", 5);
    minimums.set("ml", 7);
    assert_eq!(minimums.get("mom"), Some(5));
    assert_eq!(minimums.get("ml"), Some(7));
    minimums.set("mom", 9);
    assert_eq!(minimums.get("mom"), Some(9));
    assert_eq!(minimums.get("ml"), Some(7));
    assert_eq!(minimums.get("meta"), None);
}

#[test]
fn readiness_needs_minimum_rows() {
    assert!(projection_ready(0, None));
    assert!(!projection_ready(0, Some(5)));
    assert!(!projection_ready(4, Some(5)));
    assert!(projection_ready(5, Some(5)));
    assert!(projection_ready(10, Some(5)));
}
