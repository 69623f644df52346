//! The kernels of the implemented functions, and how a kernel on columns
//! serves a call whose argument is a single value or a batch.
use vstd::prelude::*;
use crate::column::{
    Column, ColumnView, ColumnarValue, ColumnarView, column_outcome, columnar_outcome,
    columnar_views,
};
use crate::error::{FunctionError, FunctionErrorView, missing_argument_text};
use crate::temporal::{DatePart, date_part, date_part_result};
use crate::trino::month_impl::month;
use crate::trino::to_hex_impl::{to_hex, to_hex_result};
use crate::types::DataType;

verus! {

/// A kernel: the computation of one function on the rows of one column.
#[derive(Clone, Copy, Debug, PartialEq, Eq, Structural)]
pub enum Kernel {
    /// The hexadecimal text of a binary value.
    ToHex,
    /// The month of a date or of a timestamp.
    Month,
    /// The day of the week of a date or of a timestamp.
    DayOfWeek,
}

impl Kernel {
    /// The name of the function that the kernel computes.
    pub open spec fn function_label(self) -> Seq<char> {
        match self {
            Kernel::ToHex => "to_hex"@,
            Kernel::Month => "month"@,
            Kernel::DayOfWeek => "dow"@,
        }
    }

    /// Whether the kernel computes on columns of type `t`.
    pub open spec fn takes(self, t: DataType) -> bool {
        match self {
            Kernel::ToHex => t == DataType::Binary,
            Kernel::Month => t.is_temporal(),
            Kernel::DayOfWeek => t.is_temporal(),
        }
    }

    /// The type of the columns that the kernel returns.
    pub open spec fn output_type(self) -> DataType {
        match self {
            Kernel::ToHex => DataType::Utf8,
            Kernel::Month => DataType::Int64,
            Kernel::DayOfWeek => DataType::Int64,
        }
    }

    /// What the kernel returns for a column.
    pub open spec fn column_result(self, column: ColumnView) -> Result<
        ColumnView,
        FunctionErrorView,
    > {
        match self {
            Kernel::ToHex => to_hex_result(column),
            Kernel::Month => date_part_result(DatePart::Month, "the argument of month"@, column),
            Kernel::DayOfWeek => date_part_result(
                DatePart::DayOfWeek,
                "the argument of dow"@,
                column,
            ),
        }
    }

    /// What the kernel returns for an argument: for a batch, the batch of
    /// its results; for a single value, the result for that value.
    pub open spec fn result(self, arg: ColumnarView) -> Result<ColumnarView, FunctionErrorView> {
        match arg {
            ColumnarView::Array(column) => match self.column_result(column) {
                Ok(out) => Ok(ColumnarView::Array(out)),
                Err(e) => Err(e),
            },
            ColumnarView::Scalar(value) => match self.column_result(value.repeated(1)) {
                Ok(out) => Ok(ColumnarView::Scalar(out.row(0))),
                Err(e) => Err(e),
            },
        }
    }

    /// The name of the function that the kernel computes.
    pub fn function_name(&self) -> (r: &'static str)
        ensures
            r@ == self.function_label(),
    {
        match self {
            Kernel::ToHex => "to_hex",
            Kernel::Month => "month",
            Kernel::DayOfWeek => "dow",
        }
    }

    /// Applies the kernel to the rows of `column`.
    pub fn apply_to_column(&self, column: &Column) -> (r: Result<Column, FunctionError>)
        ensures
            column_outcome(r) == self.column_result(column@),
    {
        match self {
            Kernel::ToHex => to_hex(column),
            Kernel::Month => month(column),
            Kernel::DayOfWeek => date_part(column, DatePart::DayOfWeek, "the argument of dow"),
        }
    }

    /// Applies the kernel to an argument. A batch gives a batch of as many
    /// rows; a single value gives a single value.
    pub fn apply(&self, arg: &ColumnarValue) -> (r: Result<ColumnarValue, FunctionError>)
        ensures
            columnar_outcome(r) == self.result(arg@),
    {
        match arg {
            ColumnarValue::Array(column) => match self.apply_to_column(column) {
                Ok(out) => Ok(ColumnarValue::Array(out)),
                Err(e) => Err(e),
            },
            ColumnarValue::Scalar(value) => {
                let column = value.to_array_of_size(1);
                match self.apply_to_column(&column) {
                    Ok(out) => {
                        proof {
                            lemma_kernel_keeps_rows(*self, column@);
                        }
                        Ok(ColumnarValue::Scalar(out.first_row()))
                    },
                    Err(e) => Err(e),
                }
            },
        }
    }
}

/// A kernel returns as many rows as it was given, of its output type.
pub proof fn lemma_kernel_keeps_rows(kernel: Kernel, column: ColumnView)
    ensures
        kernel.column_result(column) matches Ok(out) ==> out.len() == column.len()
            && out.data_type() == kernel.output_type(),
        kernel.column_result(column) is Ok <==> kernel.takes(column.data_type()),
{
}

/// A kernel turns a column of nulls of a type that it takes into a column of
/// as many nulls of its output type.
pub proof fn lemma_kernel_keeps_nulls(kernel: Kernel, column: ColumnView)
    requires
        kernel.takes(column.data_type()),
        column.all_null(),
    ensures
        kernel.column_result(column) matches Ok(out) && out.all_null() && out.len() == column.len()
            && out.data_type() == kernel.output_type(),
{
    let out = kernel.column_result(column)->Ok_0;
    assert forall|i: int| 0 <= i < out.len() implies (#[trigger] out.row(i)).is_null() by {
        assert(column.row(i).is_null());
    }
}

/// What a function with the kernel `kernel` returns for the arguments
/// `args`: the kernel's result for the first argument.
pub open spec fn scalar_function_result(kernel: Kernel, args: Seq<ColumnarView>) -> Result<
    ColumnarView,
    FunctionErrorView,
> {
    if args.len() == 0 {
        Err(FunctionErrorView::Internal(missing_argument_text(kernel.function_label())))
    } else {
        kernel.result(args[0])
    }
}

/// Invokes the function whose kernel is `kernel`: applies the kernel to the
/// first argument. A call without an argument is an internal error.
pub fn make_scalar_function(kernel: Kernel, args: &[ColumnarValue]) -> (r: Result<
    ColumnarValue,
    FunctionError,
>)
    ensures
        columnar_outcome(r) == scalar_function_result(kernel, columnar_views(args@)),
{
    if args.len() == 0 {
        return Err(FunctionError::missing_argument(kernel.function_name()));
    }
    kernel.apply(&args[0])
}

/// The day of the week of every row of `arg`, Monday being 1 and Sunday 7.
pub fn apply_dow_kernel(arg: &ColumnarValue) -> (r: Result<ColumnarValue, FunctionError>)
    ensures
        columnar_outcome(r) == Kernel::DayOfWeek.result(arg@),
{
    Kernel::DayOfWeek.apply(arg)
}

} // verus!
