use dialect_functions::column::Column;
use dialect_functions::error::FunctionError;
use dialect_functions::kernel::{apply_nullable, as_binary_rows};

#[test]
fn nulls_pass_through_and_values_are_transformed() {
    let input = vec![Some(1i32), None, Some(3), None];
    let out = apply_nullable(&input, |x: &i32| Ok::<i64, FunctionError>(*x as i64 * 10));
    assert_eq!(out, Ok(vec![Some(10i64), None, Some(30), None]));
}

#[test]
fn an_empty_column_gives_an_empty_column() {
    let input: Vec<Option<String>> = vec![];
    let out = apply_nullable(&input, |s: &String| Ok::<usize, FunctionError>(s.len()));
    assert_eq!(out, Ok(vec![]));
}

#[test]
fn the_transform_is_not_applied_to_nulls() {
    let input: Vec<Option<i32>> = vec![None, None];
    let out = apply_nullable(&input, |_x: &i32| {
        Err::<i32, FunctionError>(FunctionError::Internal("never".to_string()))
    });
    assert_eq!(out, Ok(vec![None, None]));
}

#[test]
fn the_first_error_ends_the_batch() {
    let input = vec![Some(1i32), Some(-2), None, Some(-4)];
    let out = apply_nullable(&input, |x: &i32| {
        if *x < 0 {
            Err(FunctionError::Internal(format!("negative: {}", x)))
        } else {
            Ok(*x)
        }
    });
    assert_eq!(out, Err(FunctionError::Internal("negative: -2".to_string())));
}

#[test]
fn binary_rows_of_a_binary_column() {
    let column = Column::Binary(vec![Some(vec![1, 2]), None]);
    let rows = as_binary_rows(&column, "value").unwrap();
    assert_eq!(rows, &vec![Some(vec![1u8, 2]), None]);
}

#[test]
fn binary_rows_of_another_column_name_the_argument_and_the_type() {
    let column = Column::Boolean(vec![Some(true)]);
    assert_eq!(
        as_binary_rows(&column, "value"),
        Err(FunctionError::Internal("could not cast value to Binary".to_string()))
    );
}
