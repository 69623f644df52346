use dialect_functions::column::{Column, ColumnarValue, ScalarValue};
use dialect_functions::error::FunctionError;
use dialect_functions::hex::encode_hex;
use dialect_functions::trino::to_hex_impl::{
    to_hex, to_hex_varbinaryFunc, to_hex_varbinary_invoke, to_hex_varbinary_return_type,
};
use dialect_functions::types::DataType;

#[test]
fn encoding_no_bytes_gives_the_empty_text() {
    assert_eq!(encode_hex(&[]), "");
}

#[test]
fn encoding_the_lowest_and_the_highest_byte() {
    assert_eq!(encode_hex(&[0x00, 0xFF]), "00ff");
}

#[test]
fn encoding_uses_lowercase_digits_high_half_first() {
    assert_eq!(encode_hex(&[0x0a, 0xb1, 0x9f, 0xde]), "0ab19fde");
    assert_eq!(encode_hex(&[0x10]), "10");
    assert_eq!(encode_hex(&[0x01]), "01");
}

#[test]
fn encoded_text_is_twice_as_long_as_the_bytes() {
    let mut bytes: Vec<u8> = Vec::new();
    for n in 0..=255u8 {
        bytes.push(n);
        let text = encode_hex(&bytes);
        assert_eq!(text.len(), 2 * bytes.len());
    }
}

#[test]
fn encoded_text_decodes_to_the_bytes() {
    let bytes: Vec<u8> = (0..=255u8).collect();
    let text = encode_hex(&bytes);
    let digits: Vec<u8> = text
        .chars()
        .map(|c| c.to_digit(16).unwrap() as u8)
        .collect();
    let mut decoded: Vec<u8> = Vec::new();
    let mut i = 0;
    while i < digits.len() {
        decoded.push(digits[i] * 16 + digits[i + 1]);
        i += 2;
    }
    assert_eq!(decoded, bytes);
    assert_eq!(text, text.to_lowercase());
}

#[test]
fn to_hex_of_a_binary_column_keeps_nulls_and_rows() {
    let column = Column::Binary(vec![Some(vec![0x00, 0xff]), None, Some(vec![]), Some(vec![0x7f])]);
    assert_eq!(
        to_hex(&column),
        Ok(Column::Utf8(vec![
            Some("00ff".to_string()),
            None,
            Some("".to_string()),
            Some("7f".to_string()),
        ]))
    );
}

#[test]
fn to_hex_of_an_empty_value_is_the_empty_text_not_null() {
    let column = Column::Binary(vec![Some(vec![])]);
    assert_eq!(to_hex(&column), Ok(Column::Utf8(vec![Some(String::new())])));
}

#[test]
fn to_hex_of_a_column_of_another_type_is_an_internal_error() {
    let column = Column::Utf8(vec![Some("ab".to_string())]);
    assert_eq!(
        to_hex(&column),
        Err(FunctionError::Internal(
            "could not cast the argument of to_hex to Binary".to_string()
        ))
    );
}

#[test]
fn to_hex_invoke_on_a_batch_gives_a_batch() {
    let args = vec![ColumnarValue::Array(Column::Binary(vec![Some(vec![0xde, 0xad]), None]))];
    assert_eq!(
        to_hex_varbinary_invoke(&args),
        Ok(ColumnarValue::Array(Column::Utf8(vec![Some("dead".to_string()), None])))
    );
}

#[test]
fn to_hex_invoke_on_a_single_value_gives_a_single_value() {
    let args = vec![ColumnarValue::Scalar(ScalarValue::Binary(Some(vec![0xbe, 0xef])))];
    assert_eq!(
        to_hex_varbinary_invoke(&args),
        Ok(ColumnarValue::Scalar(ScalarValue::Utf8(Some("beef".to_string()))))
    );
    let null = vec![ColumnarValue::Scalar(ScalarValue::Binary(None))];
    assert_eq!(
        to_hex_varbinary_invoke(&null),
        Ok(ColumnarValue::Scalar(ScalarValue::Utf8(None)))
    );
}

#[test]
fn to_hex_invoke_without_an_argument_is_an_internal_error() {
    assert_eq!(
        to_hex_varbinary_invoke(&[]),
        Err(FunctionError::Internal("to_hex was called without an argument".to_string()))
    );
}

#[test]
fn to_hex_invoke_on_all_nulls_gives_all_nulls_of_the_return_type() {
    let input = Column::new_null(DataType::Binary, 5);
    let out = to_hex_varbinary_invoke(&[ColumnarValue::Array(input)]).unwrap();
    match out {
        ColumnarValue::Array(column) => {
            assert_eq!(column.len(), 5);
            assert!(column.is_all_null());
            assert_eq!(
                Ok(column.data_type()),
                to_hex_varbinary_return_type(&[DataType::Binary])
            );
        }
        ColumnarValue::Scalar(_) => panic!("a batch was expected"),
    }
}

#[test]
fn to_hex_overload_declares_one_argument_of_any_type() {
    let overload = to_hex_varbinaryFunc::new();
    assert_eq!(overload.name(), "to_hex");
    assert_eq!(overload.signature().type_signature.arity(), 1);
    assert!(overload.signature().accepts(&[DataType::Binary]));
    assert!(overload.signature().accepts(&[DataType::Utf8]));
    assert!(!overload.signature().accepts(&[]));
    assert!(!overload.signature().accepts(&[DataType::Binary, DataType::Binary]));
    assert_eq!(overload.return_type(&[DataType::Binary]), Ok(DataType::Utf8));
    assert_eq!(
        overload.invoke(&[ColumnarValue::Array(Column::Binary(vec![Some(vec![1])]))]),
        Ok(ColumnarValue::Array(Column::Utf8(vec![Some("01".to_string())])))
    );
}
