//! `month`: the month of a date, and the overloads of `month` that are
//! declared but not supported.
use vstd::prelude::*;
use crate::column::{
    Column, ColumnarValue, ColumnarView, column_outcome, columnar_outcome, columnar_views,
    type_outcome,
};
use crate::error::{FunctionError, FunctionErrorView};
use crate::signature::{Signature, TypeSlot, Volatility};
use crate::simplify::{ExprSimplifyResult, keep_original, kept};
use crate::temporal::{DatePart, date_part, date_part_result};
use crate::types::DataType;
use crate::utils::{Kernel, make_scalar_function, scalar_function_result};

verus! {

/// Invokes `month(date)` on the arguments `args`.
pub fn month_date_invoke(args: &[ColumnarValue]) -> (r: Result<ColumnarValue, FunctionError>)
    ensures
        columnar_outcome(r) == scalar_function_result(Kernel::Month, columnar_views(args@)),
{
    make_scalar_function(Kernel::Month, args)
}

/// The month of every row of a column of dates or of timestamps, as a column
/// of 64-bit integers, January being 1; a null row stays null.
///
/// A column of another type is an internal error.
pub fn month(column: &Column) -> (r: Result<Column, FunctionError>)
    ensures
        column_outcome(r) == date_part_result(
            DatePart::Month,
            "the argument of month"@,
            column@,
        ),
{
    date_part(column, DatePart::Month, "the argument of month")
}

/// The type of what `month(date)` returns: a 64-bit integer, whatever the
/// argument types.
pub fn month_date_return_type(_arg_types: &[DataType]) -> (r: Result<DataType, FunctionError>)
    ensures
        type_outcome(r) == Ok::<DataType, FunctionErrorView>(DataType::Int64),
{
    Ok(DataType::Int64)
}

/// The rewrite hook of `month(date)`: it rewrites nothing.
pub fn month_date_simplify<E>(args: Vec<E>) -> (r: Result<ExprSimplifyResult<E>, FunctionError>)
    ensures
        r is Ok,
        r->Ok_0@ == kept(args@),
{
    keep_original(args)
}

/// The error of `month(interval year to month)`, which is declared but not
/// supported.
pub open spec fn month_interval_unsupported() -> FunctionErrorView {
    FunctionErrorView::NotImplemented {
        name: "month"@,
        detail: "interval year to month arguments are not supported"@,
    }
}

/// The error of `month(timestamp(p))`, which is declared but not supported.
pub open spec fn month_timestamp_unsupported() -> FunctionErrorView {
    FunctionErrorView::NotImplemented {
        name: "month"@,
        detail: "timestamp arguments are not supported"@,
    }
}

/// Invoking `month(interval year to month)` always fails: the overload is
/// declared but not supported.
pub fn month_intervalyeartomonth_invoke(_args: &[ColumnarValue]) -> (r: Result<
    ColumnarValue,
    FunctionError,
>)
    ensures
        columnar_outcome(r) == Err::<ColumnarView, FunctionErrorView>(month_interval_unsupported()),
{
    Err(FunctionError::not_implemented("month", "interval year to month arguments are not supported"))
}

/// Return-type inference of `month(interval year to month)` always fails:
/// the overload is declared but not supported.
pub fn month_intervalyeartomonth_return_type(_arg_types: &[DataType]) -> (r: Result<
    DataType,
    FunctionError,
>)
    ensures
        type_outcome(r) == Err::<DataType, FunctionErrorView>(month_interval_unsupported()),
{
    Err(FunctionError::not_implemented("month", "interval year to month arguments are not supported"))
}

/// The rewrite hook of `month(interval year to month)`: it rewrites nothing.
pub fn month_intervalyeartomonth_simplify<E>(args: Vec<E>) -> (r: Result<
    ExprSimplifyResult<E>,
    FunctionError,
>)
    ensures
        r is Ok,
        r->Ok_0@ == kept(args@),
{
    keep_original(args)
}

/// Invoking `month(timestamp(p))` always fails: the overload is declared but
/// not supported.
pub fn month_timestamp_p_invoke(_args: &[ColumnarValue]) -> (r: Result<
    ColumnarValue,
    FunctionError,
>)
    ensures
        columnar_outcome(r) == Err::<ColumnarView, FunctionErrorView>(
            month_timestamp_unsupported(),
        ),
{
    Err(FunctionError::not_implemented("month", "timestamp arguments are not supported"))
}

/// Return-type inference of `month(timestamp(p))` always fails: the overload
/// is declared but not supported.
pub fn month_timestamp_p_return_type(_arg_types: &[DataType]) -> (r: Result<
    DataType,
    FunctionError,
>)
    ensures
        type_outcome(r) == Err::<DataType, FunctionErrorView>(month_timestamp_unsupported()),
{
    Err(FunctionError::not_implemented("month", "timestamp arguments are not supported"))
}

/// The rewrite hook of `month(timestamp(p))`: it rewrites nothing.
pub fn month_timestamp_p_simplify<E>(args: Vec<E>) -> (r: Result<
    ExprSimplifyResult<E>,
    FunctionError,
>)
    ensures
        r is Ok,
        r->Ok_0@ == kept(args@),
{
    keep_original(args)
}

/// The overload `month(date)`.
#[derive(Debug)]
pub struct month_dateFunc {
    signature: Signature,
}

impl month_dateFunc {
    /// The overload, which takes one argument of any type and is immutable.
    pub fn new() -> (r: Self)
        ensures
            r.signature().type_signature@ == seq![TypeSlot::Any],
            r.signature().volatility == Volatility::Immutable,
    {
        let signature = Signature::any(1, Volatility::Immutable);
        proof {
            assert(signature.type_signature@ =~= seq![TypeSlot::Any]);
        }
        Self { signature }
    }

    /// The name of the function: `month`.
    pub fn name(&self) -> (r: &'static str)
        ensures
            r@ == "month"@,
    {
        "month"
    }

    /// The declared signature.
    #[verifier::when_used_as_spec(spec_signature)]
    pub fn signature(&self) -> (r: &Signature)
        ensures
            r == self.spec_signature(),
    {
        &self.signature
    }

    /// The declared signature.
    pub closed spec fn spec_signature(&self) -> &Signature {
        &self.signature
    }

    /// The type of the result: a 64-bit integer.
    pub fn return_type(&self, arg_types: &[DataType]) -> (r: Result<DataType, FunctionError>)
        ensures
            type_outcome(r) == Ok::<DataType, FunctionErrorView>(DataType::Int64),
    {
        month_date_return_type(arg_types)
    }

    /// Invokes the function on the arguments `args`.
    pub fn invoke(&self, args: &[ColumnarValue]) -> (r: Result<ColumnarValue, FunctionError>)
        ensures
            columnar_outcome(r) == scalar_function_result(Kernel::Month, columnar_views(args@)),
    {
        month_date_invoke(args)
    }

    /// The rewrite hook: it rewrites nothing.
    pub fn simplify<E>(&self, args: Vec<E>) -> (r: Result<ExprSimplifyResult<E>, FunctionError>)
        ensures
            r is Ok,
            r->Ok_0@ == kept(args@),
    {
        month_date_simplify(args)
    }
}

/// The overload `month(interval year to month)`, declared but not supported.
#[derive(Debug)]
pub struct month_intervalyeartomonthFunc {
    signature: Signature,
}

impl month_intervalyeartomonthFunc {
    /// The overload, which takes one argument of any type and is immutable.
    pub fn new() -> (r: Self)
        ensures
            r.signature().type_signature@ == seq![TypeSlot::Any],
            r.signature().volatility == Volatility::Immutable,
    {
        let signature = Signature::any(1, Volatility::Immutable);
        proof {
            assert(signature.type_signature@ =~= seq![TypeSlot::Any]);
        }
        Self { signature }
    }

    /// The name of the function: `month`.
    pub fn name(&self) -> (r: &'static str)
        ensures
            r@ == "month"@,
    {
        "month"
    }

    /// The declared signature.
    #[verifier::when_used_as_spec(spec_signature)]
    pub fn signature(&self) -> (r: &Signature)
        ensures
            r == self.spec_signature(),
    {
        &self.signature
    }

    /// The declared signature.
    pub closed spec fn spec_signature(&self) -> &Signature {
        &self.signature
    }

    /// Return-type inference, which always fails.
    pub fn return_type(&self, arg_types: &[DataType]) -> (r: Result<DataType, FunctionError>)
        ensures
            type_outcome(r) == Err::<DataType, FunctionErrorView>(month_interval_unsupported()),
    {
        month_intervalyeartomonth_return_type(arg_types)
    }

    /// Invocation, which always fails.
    pub fn invoke(&self, args: &[ColumnarValue]) -> (r: Result<ColumnarValue, FunctionError>)
        ensures
            columnar_outcome(r) == Err::<ColumnarView, FunctionErrorView>(
                month_interval_unsupported(),
            ),
    {
        month_intervalyeartomonth_invoke(args)
    }

    /// The rewrite hook: it rewrites nothing.
    pub fn simplify<E>(&self, args: Vec<E>) -> (r: Result<ExprSimplifyResult<E>, FunctionError>)
        ensures
            r is Ok,
            r->Ok_0@ == kept(args@),
    {
        month_intervalyeartomonth_simplify(args)
    }
}

/// The overload `month(timestamp(p))`, declared but not supported.
#[derive(Debug)]
pub struct month_timestamp_pFunc {
    signature: Signature,
}

impl month_timestamp_pFunc {
    /// The overload, which takes one argument of any type and is immutable.
    pub fn new() -> (r: Self)
        ensures
            r.signature().type_signature@ == seq![TypeSlot::Any],
            r.signature().volatility == Volatility::Immutable,
    {
        let signature = Signature::any(1, Volatility::Immutable);
        proof {
            assert(signature.type_signature@ =~= seq![TypeSlot::Any]);
        }
        Self { signature }
    }

    /// The name of the function: `month`.
    pub fn name(&self) -> (r: &'static str)
        ensures
            r@ == "month"@,
    {
        "month"
    }

    /// The declared signature.
    #[verifier::when_used_as_spec(spec_signature)]
    pub fn signature(&self) -> (r: &Signature)
        ensures
            r == self.spec_signature(),
    {
        &self.signature
    }

    /// The declared signature.
    pub closed spec fn spec_signature(&self) -> &Signature {
        &self.signature
    }

    /// Return-type inference, which always fails.
    pub fn return_type(&self, arg_types: &[DataType]) -> (r: Result<DataType, FunctionError>)
        ensures
            type_outcome(r) == Err::<DataType, FunctionErrorView>(month_timestamp_unsupported()),
    {
        month_timestamp_p_return_type(arg_types)
    }

    /// Invocation, which always fails.
    pub fn invoke(&self, args: &[ColumnarValue]) -> (r: Result<ColumnarValue, FunctionError>)
        ensures
            columnar_outcome(r) == Err::<ColumnarView, FunctionErrorView>(
                month_timestamp_unsupported(),
            ),
    {
        month_timestamp_p_invoke(args)
    }

    /// The rewrite hook: it rewrites nothing.
    pub fn simplify<E>(&self, args: Vec<E>) -> (r: Result<ExprSimplifyResult<E>, FunctionError>)
        ensures
            r is Ok,
            r->Ok_0@ == kept(args@),
    {
        month_timestamp_p_simplify(args)
    }
}

} // verus!
