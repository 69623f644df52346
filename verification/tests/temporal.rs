use dialect_functions::column::{Column, ColumnarValue, ScalarValue};
use dialect_functions::error::FunctionError;
use dialect_functions::temporal::{date_part, int64_column, DatePart};
use dialect_functions::trino::dow_impl::{
    dow_dateFunc, dow_date_invoke, dow_date_return_type, dow_timestamp_pFunc,
    dow_timestamp_p_invoke, dow_timestamp_p_return_type,
};
use dialect_functions::trino::month_impl::{
    month, month_dateFunc, month_date_invoke, month_date_return_type,
    month_intervalyeartomonthFunc, month_intervalyeartomonth_invoke,
    month_intervalyeartomonth_return_type, month_timestamp_pFunc, month_timestamp_p_invoke,
    month_timestamp_p_return_type,
};
use dialect_functions::types::{DataType, TimeUnit};
use dialect_functions::utils::{apply_dow_kernel, make_scalar_function, Kernel};

#[test]
fn month_of_dates() {
    let column = Column::Date32(vec![Some(0), Some(31), None, Some(-1), Some(19782)]);
    assert_eq!(
        month(&column),
        Ok(Column::Int64(vec![Some(1), Some(2), None, Some(12), Some(2)]))
    );
}

#[test]
fn month_of_timestamps_in_each_unit() {
    let seconds = Column::Timestamp(TimeUnit::Second, vec![Some(0), Some(-1), None, Some(1709164800)]);
    assert_eq!(
        month(&seconds),
        Ok(Column::Int64(vec![Some(1), Some(12), None, Some(2)]))
    );
    let millis = Column::Timestamp(TimeUnit::Millisecond, vec![Some(1709164800_000), Some(-1)]);
    assert_eq!(month(&millis), Ok(Column::Int64(vec![Some(2), Some(12)])));
    let micros = Column::Timestamp(TimeUnit::Microsecond, vec![Some(1709164800_000_000)]);
    assert_eq!(month(&micros), Ok(Column::Int64(vec![Some(2)])));
    let nanos = Column::Timestamp(TimeUnit::Nanosecond, vec![Some(1709164800_000_000_000)]);
    assert_eq!(month(&nanos), Ok(Column::Int64(vec![Some(2)])));
}

#[test]
fn month_of_a_date_outside_the_calendar_is_null() {
    let column = Column::Date32(vec![Some(i32::MAX), Some(0), Some(i32::MIN)]);
    assert_eq!(month(&column), Ok(Column::Int64(vec![None, Some(1), None])));
}

#[test]
fn month_of_a_column_of_another_type_is_an_internal_error() {
    let column = Column::Binary(vec![Some(vec![1])]);
    assert_eq!(
        month(&column),
        Err(FunctionError::Internal(
            "could not cast the argument of month to Date32 or Timestamp".to_string()
        ))
    );
}

#[test]
fn month_of_an_empty_column_is_an_empty_column() {
    assert_eq!(month(&Column::Date32(vec![])), Ok(Column::Int64(vec![])));
}

#[test]
fn day_of_week_counts_from_monday() {
    // 1970-01-01 was a Thursday, 1970-01-04 a Sunday, 1969-12-31 a Wednesday.
    let column = Column::Date32(vec![Some(0), Some(3), Some(-1), None, Some(-719162)]);
    assert_eq!(
        date_part(&column, DatePart::DayOfWeek, "the argument"),
        Ok(Column::Int64(vec![Some(4), Some(7), Some(3), None, Some(1)]))
    );
}

#[test]
fn day_of_week_of_timestamps() {
    let column = Column::Timestamp(TimeUnit::Second, vec![Some(259200), Some(-1), None]);
    assert_eq!(
        date_part(&column, DatePart::DayOfWeek, "the argument"),
        Ok(Column::Int64(vec![Some(7), Some(3), None]))
    );
}

#[test]
fn date_part_names_the_argument_it_could_not_read() {
    let column = Column::Int64(vec![Some(1)]);
    assert_eq!(
        date_part(&column, DatePart::Month, "the first argument"),
        Err(FunctionError::Internal(
            "could not cast the first argument to Date32 or Timestamp".to_string()
        ))
    );
}

#[test]
fn dow_kernel_on_a_batch_and_on_a_single_value() {
    assert_eq!(
        apply_dow_kernel(&ColumnarValue::Array(Column::Date32(vec![Some(31), None]))),
        Ok(ColumnarValue::Array(Column::Int64(vec![Some(7), None])))
    );
    assert_eq!(
        apply_dow_kernel(&ColumnarValue::Scalar(ScalarValue::Date32(Some(0)))),
        Ok(ColumnarValue::Scalar(ScalarValue::Int64(Some(4))))
    );
    assert_eq!(
        apply_dow_kernel(&ColumnarValue::Scalar(ScalarValue::Timestamp(TimeUnit::Millisecond, None))),
        Ok(ColumnarValue::Scalar(ScalarValue::Int64(None)))
    );
}

#[test]
fn dow_invoke_of_both_overloads() {
    let dates = vec![ColumnarValue::Array(Column::Date32(vec![Some(0), None, Some(3)]))];
    let expected = Ok(ColumnarValue::Array(Column::Int64(vec![Some(4), None, Some(7)])));
    assert_eq!(dow_date_invoke(&dates), expected);
    assert_eq!(dow_dateFunc::new().invoke(&dates), expected);
    let stamps = vec![ColumnarValue::Array(Column::Timestamp(
        TimeUnit::Second,
        vec![Some(0), None, Some(259200)],
    ))];
    assert_eq!(dow_timestamp_p_invoke(&stamps), expected);
    assert_eq!(dow_timestamp_pFunc::new().invoke(&stamps), expected);
    assert_eq!(dow_date_return_type(&[DataType::Date32]), Ok(DataType::Int64));
    assert_eq!(
        dow_timestamp_p_return_type(&[DataType::Timestamp(TimeUnit::Second)]),
        Ok(DataType::Int64)
    );
    assert_eq!(dow_dateFunc::new().name(), "dow");
    assert_eq!(dow_timestamp_pFunc::new().name(), "dow");
}

#[test]
fn dow_invoke_without_an_argument_is_an_internal_error() {
    let expected = Err(FunctionError::Internal("dow was called without an argument".to_string()));
    assert_eq!(dow_date_invoke(&[]), expected);
    assert_eq!(dow_timestamp_p_invoke(&[]), expected);
}

#[test]
fn month_invoke_on_a_batch_and_on_a_single_value() {
    let batch = vec![ColumnarValue::Array(Column::Date32(vec![Some(31), None]))];
    assert_eq!(
        month_date_invoke(&batch),
        Ok(ColumnarValue::Array(Column::Int64(vec![Some(2), None])))
    );
    let single = vec![ColumnarValue::Scalar(ScalarValue::Date32(Some(-1)))];
    assert_eq!(
        month_date_invoke(&single),
        Ok(ColumnarValue::Scalar(ScalarValue::Int64(Some(12))))
    );
    assert_eq!(
        month_date_invoke(&[]),
        Err(FunctionError::Internal("month was called without an argument".to_string()))
    );
    assert_eq!(month_dateFunc::new().invoke(&batch), month_date_invoke(&batch));
    assert_eq!(month_date_return_type(&[DataType::Date32]), Ok(DataType::Int64));
    assert_eq!(month_dateFunc::new().name(), "month");
}

#[test]
fn month_and_dow_on_all_nulls_give_all_nulls_of_the_return_type() {
    for t in [
        DataType::Date32,
        DataType::Timestamp(TimeUnit::Second),
        DataType::Timestamp(TimeUnit::Nanosecond),
    ] {
        for kernel in [Kernel::Month, Kernel::DayOfWeek] {
            let input = Column::new_null(t, 4);
            match make_scalar_function(kernel, &[ColumnarValue::Array(input)]).unwrap() {
                ColumnarValue::Array(column) => {
                    assert_eq!(column.len(), 4);
                    assert!(column.is_all_null());
                    assert_eq!(column.data_type(), DataType::Int64);
                }
                ColumnarValue::Scalar(_) => panic!("a batch was expected"),
            }
        }
    }
}

#[test]
fn unsupported_month_overloads_fail_in_inference_and_in_invocation() {
    let interval = FunctionError::NotImplemented {
        name: "month".to_string(),
        detail: "interval year to month arguments are not supported".to_string(),
    };
    let args = vec![ColumnarValue::Array(Column::IntervalYearMonth(vec![Some(14)]))];
    assert_eq!(month_intervalyeartomonth_invoke(&args), Err(interval.clone()));
    assert_eq!(
        month_intervalyeartomonth_return_type(&[DataType::IntervalYearMonth]),
        Err(interval.clone())
    );
    let overload = month_intervalyeartomonthFunc::new();
    assert_eq!(overload.name(), "month");
    assert_eq!(overload.invoke(&args), Err(interval.clone()));
    assert_eq!(overload.return_type(&[DataType::IntervalYearMonth]), Err(interval));

    let timestamp = FunctionError::NotImplemented {
        name: "month".to_string(),
        detail: "timestamp arguments are not supported".to_string(),
    };
    let args = vec![ColumnarValue::Array(Column::Timestamp(TimeUnit::Second, vec![Some(0)]))];
    assert_eq!(month_timestamp_p_invoke(&args), Err(timestamp.clone()));
    assert_eq!(
        month_timestamp_p_return_type(&[DataType::Timestamp(TimeUnit::Second)]),
        Err(timestamp.clone())
    );
    let overload = month_timestamp_pFunc::new();
    assert_eq!(overload.name(), "month");
    assert_eq!(overload.invoke(&args), Err(timestamp.clone()));
    assert_eq!(overload.return_type(&[]), Err(timestamp));
}

#[test]
fn fields_widen_to_64_bits() {
    assert_eq!(
        int64_column(&vec![Some(1), None, Some(-5), Some(i32::MAX), Some(i32::MIN)]),
        Ok(Column::Int64(vec![
            Some(1),
            None,
            Some(-5),
            Some(2147483647),
            Some(-2147483648),
        ]))
    );
    assert_eq!(int64_column(&vec![]), Ok(Column::Int64(vec![])));
}
