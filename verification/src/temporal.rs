//! Calendar fields of dates and timestamps, extracted by the `arrow` kernels.
use std::sync::Arc;
use arrow::array::{
    ArrayRef, AsArray, Date32Array, Int32Array, TimestampMicrosecondArray,
    TimestampMillisecondArray, TimestampNanosecondArray, TimestampSecondArray,
};
use arrow::datatypes::{Int32Type, Int64Type};
use arrow::error::ArrowError;
use vstd::prelude::*;
use crate::column::{Column, ColumnView, column_outcome};
use crate::error::{FunctionError, FunctionErrorView, cast_failure_text};
use crate::types::TimeUnit;

verus! {

/// A calendar field of a date or of a timestamp.
#[derive(Clone, Copy, Debug, PartialEq, Eq, Structural)]
pub enum DatePart {
    /// The month of the year, January being 1.
    Month,
    /// The day of the week, Monday being 1 and Sunday 7.
    DayOfWeek,
}

/// The error type of the `arrow` kernels.
#[verifier::external_type_specification]
#[verifier::external_body]
pub struct ExArrowError(ArrowError);

/// The field `part` of the date that lies `days` days after the epoch, as
/// `arrow::compute::date_part` gives it for a `Date32` value: `None` where
/// the day lies outside the calendar that `arrow` can represent.
pub uninterp spec fn date32_part(part: DatePart, days: i32) -> Option<i32>;

/// The field `part` of the instant that lies `value` units after the epoch, as
/// `arrow::compute::date_part` gives it for a `Timestamp` value without time
/// zone: `None` where the instant lies outside the calendar that `arrow` can
/// represent.
pub uninterp spec fn timestamp_part(part: DatePart, unit: TimeUnit, value: i64) -> Option<i32>;

/// The fields of a column of dates, row by row.
pub open spec fn date32_parts(part: DatePart, rows: Seq<Option<i32>>) -> Seq<Option<i32>> {
    Seq::new(
        rows.len(),
        |i: int|
            match rows[i] {
                Some(days) => date32_part(part, days),
                None => None,
            },
    )
}

/// The fields of a column of timestamps, row by row.
pub open spec fn timestamp_parts(part: DatePart, unit: TimeUnit, rows: Seq<Option<i64>>) -> Seq<
    Option<i32>,
> {
    Seq::new(
        rows.len(),
        |i: int|
            match rows[i] {
                Some(value) => timestamp_part(part, unit, value),
                None => None,
            },
    )
}

/// Each value as a 64-bit integer, nulls kept.
pub open spec fn widened(rows: Seq<Option<i32>>) -> Seq<Option<i64>> {
    Seq::new(
        rows.len(),
        |i: int|
            match rows[i] {
                Some(value) => Some(value as i64),
                None => None,
            },
    )
}

/// Calls `arrow::compute::date_part` on a `Date32` array with the rows
/// `rows`.
///
/// For such an array and these two fields the kernel does not fail. It
/// returns an `Int32` array of the same length, computed row by row: a null
/// row stays null, and any other row holds the field of its date, or null
/// where `arrow` cannot represent the date.
#[verifier::external_body]
fn date_part_of_dates(rows: &Vec<Option<i32>>, part: DatePart) -> (r: Result<
    Vec<Option<i32>>,
    ArrowError,
>)
    ensures
        r is Ok,
        r->Ok_0@.len() == rows@.len(),
        forall|i: int|
            0 <= i < rows@.len() ==> (#[trigger] r->Ok_0@[i]) == match rows@[i] {
                Some(days) => date32_part(part, days),
                None => None,
            },
{
    let array = Date32Array::from(rows.clone());
    let field = match part {
        DatePart::Month => arrow::compute::DatePart::Month,
        DatePart::DayOfWeek => arrow::compute::DatePart::DayOfWeekMonday1,
    };
    let parts = arrow::compute::date_part(&array, field)?;
    Ok(parts.as_primitive::<Int32Type>().iter().collect())
}

/// Calls `arrow::compute::date_part` on a `Timestamp` array of the unit
/// `unit`, without time zone, with the rows `rows`.
///
/// For such an array and these two fields the kernel does not fail. It
/// returns an `Int32` array of the same length, computed row by row: a null
/// row stays null, and any other row holds the field of its instant, or null
/// where `arrow` cannot represent the instant.
#[verifier::external_body]
fn date_part_of_timestamps(unit: TimeUnit, rows: &Vec<Option<i64>>, part: DatePart) -> (r: Result<
    Vec<Option<i32>>,
    ArrowError,
>)
    ensures
        r is Ok,
        r->Ok_0@.len() == rows@.len(),
        forall|i: int|
            0 <= i < rows@.len() ==> (#[trigger] r->Ok_0@[i]) == match rows@[i] {
                Some(value) => timestamp_part(part, unit, value),
                None => None,
            },
{
    let array: ArrayRef = match unit {
        TimeUnit::Second => Arc::new(rows.iter().collect::<TimestampSecondArray>()),
        TimeUnit::Millisecond => Arc::new(rows.iter().collect::<TimestampMillisecondArray>()),
        TimeUnit::Microsecond => Arc::new(rows.iter().collect::<TimestampMicrosecondArray>()),
        TimeUnit::Nanosecond => Arc::new(rows.iter().collect::<TimestampNanosecondArray>()),
    };
    let field = match part {
        DatePart::Month => arrow::compute::DatePart::Month,
        DatePart::DayOfWeek => arrow::compute::DatePart::DayOfWeekMonday1,
    };
    let parts = arrow::compute::date_part(array.as_ref(), field)?;
    Ok(parts.as_primitive::<Int32Type>().iter().collect())
}

/// Calls `arrow::compute::cast` on an `Int32` array with the rows `rows`,
/// towards `Int64`.
///
/// This cast does not fail: every 32-bit value has its 64-bit value, and a
/// null row stays null.
#[verifier::external_body]
fn cast_to_int64(rows: &Vec<Option<i32>>) -> (r: Result<Vec<Option<i64>>, ArrowError>)
    ensures
        r is Ok,
        r->Ok_0@ == widened(rows@),
{
    let array = Int32Array::from(rows.clone());
    let wide = arrow::compute::cast(&array, &arrow::datatypes::DataType::Int64)?;
    Ok(wide.as_primitive::<Int64Type>().iter().collect())
}

/// The text of an `ArrowError`, as its `Display` writes it.
#[verifier::external_body]
fn arrow_error_text(e: &ArrowError) -> String {
    e.to_string()
}

/// The internal error that carries the text of an `ArrowError`.
fn kernel_failure(e: &ArrowError) -> (r: FunctionError)
    ensures
        r is Internal,
{
    FunctionError::internal(arrow_error_text(e))
}

/// What [`date_part`] returns for a column.
pub open spec fn date_part_result(part: DatePart, argument: Seq<char>, column: ColumnView) -> Result<
    ColumnView,
    FunctionErrorView,
> {
    match column {
        ColumnView::Date32(rows) => Ok(ColumnView::Int64(widened(date32_parts(part, rows)))),
        ColumnView::Timestamp(unit, rows) => Ok(
            ColumnView::Int64(widened(timestamp_parts(part, unit, rows))),
        ),
        _ => Err(FunctionErrorView::Internal(cast_failure_text(argument, "Date32 or Timestamp"@))),
    }
}

/// The field `part` of every row of a column of dates or of timestamps, as a
/// column of 64-bit integers; a null row stays null.
///
/// A column of another type is an internal error that names `argument`.
pub fn date_part(column: &Column, part: DatePart, argument: &str) -> (r: Result<
    Column,
    FunctionError,
>)
    ensures
        column_outcome(r) == date_part_result(part, argument@, column@),
{
    let parts = match column {
        Column::Date32(rows) => date_part_of_dates(rows, part),
        Column::Timestamp(unit, rows) => date_part_of_timestamps(*unit, rows, part),
        _ => {
            return Err(FunctionError::cast_failure(argument, "Date32 or Timestamp"));
        },
    };
    let parts = match parts {
        Ok(parts) => parts,
        Err(e) => {
            return Err(kernel_failure(&e));
        },
    };
    proof {
        match column {
            Column::Date32(rows) => {
                assert(parts@ =~= date32_parts(part, rows@));
            },
            Column::Timestamp(unit, rows) => {
                assert(parts@ =~= timestamp_parts(part, *unit, rows@));
            },
            _ => {},
        }
    }
    int64_column(&parts)
}

/// The column of 64-bit integers that holds the 32-bit fields `parts`, each
/// with its value, nulls kept.
pub fn int64_column(parts: &Vec<Option<i32>>) -> (r: Result<Column, FunctionError>)
    ensures
        column_outcome(r) == Ok::<ColumnView, FunctionErrorView>(
            ColumnView::Int64(widened(parts@)),
        ),
{
    match cast_to_int64(parts) {
        Ok(wide) => Ok(Column::Int64(wide)),
        Err(e) => Err(kernel_failure(&e)),
    }
}

} // verus!
