use dialect_functions::column::{argument_types, Column, ColumnarValue, ScalarValue};
use dialect_functions::types::{join_type_labels, DataType, TimeUnit};

#[test]
fn a_column_knows_its_length_and_type() {
    assert_eq!(Column::Boolean(vec![Some(true), None]).len(), 2);
    assert_eq!(Column::Boolean(vec![]).data_type(), DataType::Boolean);
    assert_eq!(Column::Int64(vec![Some(1)]).data_type(), DataType::Int64);
    assert_eq!(Column::Utf8(vec![None]).data_type(), DataType::Utf8);
    assert_eq!(Column::Binary(vec![None]).data_type(), DataType::Binary);
    assert_eq!(Column::Date32(vec![None]).data_type(), DataType::Date32);
    assert_eq!(
        Column::Timestamp(TimeUnit::Microsecond, vec![None, None, None]).data_type(),
        DataType::Timestamp(TimeUnit::Microsecond)
    );
    assert_eq!(Column::IntervalYearMonth(vec![Some(3)]).data_type(), DataType::IntervalYearMonth);
    assert_eq!(Column::Timestamp(TimeUnit::Second, vec![None, None, None]).len(), 3);
}

#[test]
fn a_column_of_nulls_is_all_null() {
    for t in [
        DataType::Boolean,
        DataType::Int64,
        DataType::Utf8,
        DataType::Binary,
        DataType::Date32,
        DataType::Timestamp(TimeUnit::Nanosecond),
        DataType::IntervalYearMonth,
    ] {
        let column = Column::new_null(t, 3);
        assert_eq!(column.len(), 3);
        assert_eq!(column.data_type(), t);
        assert!(column.is_all_null());
        assert!(Column::new_null(t, 0).is_all_null());
        assert_eq!(column.scalar_at(2), Some(ScalarValue::null(t)));
        assert!(ScalarValue::null(t).is_null());
        assert_eq!(ScalarValue::null(t).data_type(), t);
    }
    assert_eq!(Column::new_null(DataType::Utf8, 2), Column::Utf8(vec![None, None]));
}

#[test]
fn a_column_with_a_value_is_not_all_null() {
    assert!(!Column::Int64(vec![None, Some(0)]).is_all_null());
    assert!(!Column::Utf8(vec![Some(String::new())]).is_all_null());
    assert!(!Column::Binary(vec![Some(vec![]), None]).is_all_null());
}

#[test]
fn a_row_of_a_column_is_a_single_value() {
    let text = Column::Utf8(vec![Some("a".to_string()), None]);
    assert_eq!(text.scalar_at(0), Some(ScalarValue::Utf8(Some("a".to_string()))));
    assert_eq!(text.scalar_at(1), Some(ScalarValue::Utf8(None)));
    assert_eq!(text.scalar_at(2), None);
    let binary = Column::Binary(vec![Some(vec![1, 2, 3])]);
    assert_eq!(binary.scalar_at(0), Some(ScalarValue::Binary(Some(vec![1, 2, 3]))));
    let stamps = Column::Timestamp(TimeUnit::Millisecond, vec![Some(7)]);
    assert_eq!(
        stamps.scalar_at(0),
        Some(ScalarValue::Timestamp(TimeUnit::Millisecond, Some(7)))
    );
    assert_eq!(Column::Date32(vec![]).scalar_at(0), None);
}

#[test]
fn a_single_value_repeats_into_a_column() {
    assert_eq!(
        ScalarValue::Utf8(Some("x".to_string())).to_array_of_size(3),
        Column::Utf8(vec![Some("x".to_string()), Some("x".to_string()), Some("x".to_string())])
    );
    assert_eq!(
        ScalarValue::Binary(Some(vec![9, 8])).to_array_of_size(2),
        Column::Binary(vec![Some(vec![9, 8]), Some(vec![9, 8])])
    );
    assert_eq!(ScalarValue::Int64(None).to_array_of_size(2), Column::Int64(vec![None, None]));
    assert_eq!(ScalarValue::Boolean(Some(true)).to_array_of_size(0), Column::Boolean(vec![]));
    assert_eq!(
        ScalarValue::Timestamp(TimeUnit::Second, Some(5)).to_array_of_size(1),
        Column::Timestamp(TimeUnit::Second, vec![Some(5)])
    );
    assert_eq!(ScalarValue::Date32(Some(1)).to_array_of_size(1), Column::Date32(vec![Some(1)]));
    assert_eq!(
        ScalarValue::IntervalYearMonth(Some(1)).to_array_of_size(1),
        Column::IntervalYearMonth(vec![Some(1)])
    );
    assert!(!ScalarValue::Date32(Some(1)).is_null());
}

#[test]
fn the_types_of_arguments_in_order() {
    let args = vec![
        ColumnarValue::Array(Column::Binary(vec![])),
        ColumnarValue::Scalar(ScalarValue::Timestamp(TimeUnit::Second, None)),
        ColumnarValue::Scalar(ScalarValue::Utf8(Some("a".to_string()))),
    ];
    assert_eq!(
        argument_types(&args),
        vec![DataType::Binary, DataType::Timestamp(TimeUnit::Second), DataType::Utf8]
    );
    assert_eq!(args[0].data_type(), DataType::Binary);
    assert_eq!(argument_types(&[]), vec![]);
}

#[test]
fn type_labels() {
    assert_eq!(DataType::Boolean.name(), "Boolean");
    assert_eq!(DataType::Int64.name(), "Int64");
    assert_eq!(DataType::Utf8.name(), "Utf8");
    assert_eq!(DataType::Binary.name(), "Binary");
    assert_eq!(DataType::Date32.name(), "Date32");
    assert_eq!(DataType::Timestamp(TimeUnit::Second).name(), "Timestamp(Second)");
    assert_eq!(DataType::Timestamp(TimeUnit::Millisecond).name(), "Timestamp(Millisecond)");
    assert_eq!(DataType::Timestamp(TimeUnit::Microsecond).name(), "Timestamp(Microsecond)");
    assert_eq!(DataType::Timestamp(TimeUnit::Nanosecond).name(), "Timestamp(Nanosecond)");
    assert_eq!(DataType::IntervalYearMonth.name(), "Interval(YearMonth)");
    assert_eq!(join_type_labels(&[]), "");
    assert_eq!(join_type_labels(&[DataType::Utf8]), "Utf8");
    assert_eq!(
        join_type_labels(&[DataType::Utf8, DataType::Date32, DataType::Int64]),
        "Utf8, Date32, Int64"
    );
}
