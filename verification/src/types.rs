//! The logical types that arguments and results of the functions can have.
use vstd::prelude::*;

verus! {

/// The resolution of a timestamp value.
#[derive(Clone, Copy, Debug, PartialEq, Eq, Structural)]
pub enum TimeUnit {
    Second,
    Millisecond,
    Microsecond,
    Nanosecond,
}

/// The logical type of a column or of a scalar.
#[derive(Clone, Copy, Debug, PartialEq, Eq, Structural)]
pub enum DataType {
    Boolean,
    Int64,
    Utf8,
    Binary,
    /// Days since the epoch.
    Date32,
    /// An instant without time zone, counted in the given unit since the epoch.
    Timestamp(TimeUnit),
    /// A span of whole months.
    IntervalYearMonth,
}

/// The name under which a type appears in messages.
pub open spec fn data_type_label(t: DataType) -> Seq<char> {
    match t {
        DataType::Boolean => "Boolean"@,
        DataType::Int64 => "Int64"@,
        DataType::Utf8 => "Utf8"@,
        DataType::Binary => "Binary"@,
        DataType::Date32 => "Date32"@,
        DataType::Timestamp(TimeUnit::Second) => "Timestamp(Second)"@,
        DataType::Timestamp(TimeUnit::Millisecond) => "Timestamp(Millisecond)"@,
        DataType::Timestamp(TimeUnit::Microsecond) => "Timestamp(Microsecond)"@,
        DataType::Timestamp(TimeUnit::Nanosecond) => "Timestamp(Nanosecond)"@,
        DataType::IntervalYearMonth => "Interval(YearMonth)"@,
    }
}

impl DataType {
    /// The name under which this type appears in messages.
    pub fn name(&self) -> (r: &'static str)
        ensures
            r@ == data_type_label(*self),
    {
        match self {
            DataType::Boolean => "Boolean",
            DataType::Int64 => "Int64",
            DataType::Utf8 => "Utf8",
            DataType::Binary => "Binary",
            DataType::Date32 => "Date32",
            DataType::Timestamp(TimeUnit::Second) => "Timestamp(Second)",
            DataType::Timestamp(TimeUnit::Millisecond) => "Timestamp(Millisecond)",
            DataType::Timestamp(TimeUnit::Microsecond) => "Timestamp(Microsecond)",
            DataType::Timestamp(TimeUnit::Nanosecond) => "Timestamp(Nanosecond)",
            DataType::IntervalYearMonth => "Interval(YearMonth)",
        }
    }

    /// Whether this type is a date or a timestamp.
    pub open spec fn is_temporal(self) -> bool {
        self == DataType::Date32 || self is Timestamp
    }
}

/// The names of `types`, separated by a comma and a space.
pub open spec fn data_type_labels(types: Seq<DataType>) -> Seq<char>
    decreases types.len(),
{
    if types.len() == 0 {
        Seq::empty()
    } else if types.len() == 1 {
        data_type_label(types[0])
    } else {
        data_type_labels(types.drop_last()) + ", "@ + data_type_label(types.last())
    }
}

/// Writes the names of `types`, separated by a comma and a space.
pub fn join_type_labels(types: &[DataType]) -> (r: String)
    ensures
        r@ == data_type_labels(types@),
{
    let mut out = String::new();
    let mut i: usize = 0;
    while i < types.len()
        invariant
            i <= types.len(),
            out@ == data_type_labels(types@.take(i as int)),
        decreases types.len() - i,
    {
        proof {
            assert(types@.take(i + 1).drop_last() == types@.take(i as int));
            assert(types@.take(i + 1).last() == types@[i as int]);
            if i == 0 {
                assert(data_type_labels(types@.take(0)) == Seq::<char>::empty());
                assert(Seq::<char>::empty() + data_type_label(types@[0]) == data_type_label(types@[0]));
            }
        }
        if i > 0 {
            out.append(", ");
        }
        out.append(types[i].name());
        i += 1;
    }
    proof {
        assert(types@.take(types@.len() as int) == types@);
    }
    out
}

} // verus!
