use dialect_functions::error::FunctionError;
use dialect_functions::types::{DataType, TimeUnit};

#[test]
fn not_implemented_names_the_function_and_the_detail() {
    let e = FunctionError::not_implemented("month", "no intervals");
    assert_eq!(
        e,
        FunctionError::NotImplemented { name: "month".to_string(), detail: "no intervals".to_string() }
    );
    assert_eq!(e.message(), "month is not implemented: no intervals");
}

#[test]
fn cast_failure_names_the_argument_and_the_expected_type() {
    let e = FunctionError::cast_failure("arg", "Binary");
    assert_eq!(e, FunctionError::Internal("could not cast arg to Binary".to_string()));
    assert_eq!(e.message(), "internal error: could not cast arg to Binary");
}

#[test]
fn missing_argument_names_the_function() {
    let e = FunctionError::missing_argument("to_hex");
    assert_eq!(e, FunctionError::Internal("to_hex was called without an argument".to_string()));
}

#[test]
fn unsupported_signature_names_the_function_and_the_types() {
    let e = FunctionError::unsupported_signature(
        "dow",
        &[DataType::Utf8, DataType::Timestamp(TimeUnit::Second)],
    );
    assert_eq!(
        e,
        FunctionError::UnsupportedSignature {
            name: "dow".to_string(),
            arg_types: vec![DataType::Utf8, DataType::Timestamp(TimeUnit::Second)],
        }
    );
    assert_eq!(e.message(), "no overload of dow accepts (Utf8, Timestamp(Second))");
    assert_eq!(
        FunctionError::unsupported_signature("dow", &[]).message(),
        "no overload of dow accepts ()"
    );
}

#[test]
fn an_internal_error_carries_its_text() {
    let e = FunctionError::internal("a kernel failed".to_string());
    assert_eq!(e, FunctionError::Internal("a kernel failed".to_string()));
    assert_eq!(e.message(), "internal error: a kernel failed");
    assert_eq!(FunctionError::internal(String::new()), FunctionError::Internal(String::new()));
}
