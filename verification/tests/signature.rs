use dialect_functions::signature::{Signature, TypeSignature, TypeSlot, Volatility};
use dialect_functions::types::{DataType, TimeUnit};

#[test]
fn a_wildcard_admits_every_type() {
    for t in [
        DataType::Boolean,
        DataType::Int64,
        DataType::Utf8,
        DataType::Binary,
        DataType::Date32,
        DataType::Timestamp(TimeUnit::Millisecond),
        DataType::IntervalYearMonth,
    ] {
        assert!(TypeSlot::Any.accepts(t));
    }
}

#[test]
fn an_exact_slot_admits_its_type_only() {
    let slot = TypeSlot::Exact(DataType::Timestamp(TimeUnit::Second));
    assert!(slot.accepts(DataType::Timestamp(TimeUnit::Second)));
    assert!(!slot.accepts(DataType::Timestamp(TimeUnit::Millisecond)));
    assert!(!slot.accepts(DataType::Date32));
    assert!(!TypeSlot::Exact(DataType::Int64).accepts(DataType::Boolean));
}

#[test]
fn arity_is_the_number_of_slots() {
    assert_eq!(TypeSignature::any(0).arity(), 0);
    assert_eq!(TypeSignature::any(3).arity(), 3);
    assert_eq!(TypeSignature::any(3).slots(), &[TypeSlot::Any, TypeSlot::Any, TypeSlot::Any]);
    let exact = TypeSignature::exact(&[DataType::Binary, DataType::Int64]);
    assert_eq!(exact.arity(), 2);
    assert_eq!(
        exact.slots(),
        &[TypeSlot::Exact(DataType::Binary), TypeSlot::Exact(DataType::Int64)]
    );
    let mixed = TypeSignature::new(vec![TypeSlot::Any, TypeSlot::Exact(DataType::Utf8)]);
    assert_eq!(mixed.arity(), 2);
    assert_eq!(mixed.clone(), mixed);
}

#[test]
fn a_signature_accepts_by_arity_and_by_slot() {
    let any = TypeSignature::any(2);
    assert!(any.accepts(&[DataType::Utf8, DataType::Date32]));
    assert!(!any.accepts(&[DataType::Utf8]));
    assert!(!any.accepts(&[DataType::Utf8, DataType::Utf8, DataType::Utf8]));
    assert!(TypeSignature::any(0).accepts(&[]));

    let exact = TypeSignature::exact(&[DataType::Binary, DataType::Int64]);
    assert!(exact.accepts(&[DataType::Binary, DataType::Int64]));
    assert!(!exact.accepts(&[DataType::Int64, DataType::Binary]));
    assert!(!exact.accepts(&[DataType::Binary]));
    assert!(!exact.accepts(&[DataType::Binary, DataType::Utf8]));

    let mixed = TypeSignature::new(vec![TypeSlot::Any, TypeSlot::Exact(DataType::Utf8)]);
    assert!(mixed.accepts(&[DataType::Boolean, DataType::Utf8]));
    assert!(!mixed.accepts(&[DataType::Utf8, DataType::Boolean]));
}

#[test]
fn volatility_does_not_change_what_a_signature_accepts() {
    for volatility in [Volatility::Immutable, Volatility::Stable, Volatility::Volatile] {
        let signature = Signature::exact(&[DataType::Date32], volatility);
        assert_eq!(signature.volatility, volatility);
        assert!(signature.accepts(&[DataType::Date32]));
        assert!(!signature.accepts(&[DataType::Utf8]));
        let any = Signature::any(1, volatility);
        assert!(any.accepts(&[DataType::Utf8]));
        assert!(!any.accepts(&[]));
    }
    let built = Signature::new(TypeSignature::any(1), Volatility::Stable);
    assert_eq!(built.clone(), built);
}
