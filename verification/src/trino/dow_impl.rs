//! `dow`: the day of the week of a date or of a timestamp.
use vstd::prelude::*;
use crate::column::{ColumnarValue, columnar_outcome, columnar_views, type_outcome};
use crate::error::{FunctionError, FunctionErrorView};
use crate::signature::{Signature, TypeSlot, Volatility};
use crate::simplify::{ExprSimplifyResult, keep_original, kept};
use crate::types::DataType;
use crate::utils::{Kernel, apply_dow_kernel, scalar_function_result};

verus! {

/// Invokes `dow(date)` on the arguments `args`: the day of the week of the
/// first argument, Monday being 1 and Sunday 7.
pub fn dow_date_invoke(args: &[ColumnarValue]) -> (r: Result<ColumnarValue, FunctionError>)
    ensures
        columnar_outcome(r) == scalar_function_result(Kernel::DayOfWeek, columnar_views(args@)),
{
    if args.len() == 0 {
        return Err(FunctionError::missing_argument("dow"));
    }
    apply_dow_kernel(&args[0])
}

/// The type of what `dow(date)` returns: a 64-bit integer, whatever the
/// argument types.
pub fn dow_date_return_type(_arg_types: &[DataType]) -> (r: Result<DataType, FunctionError>)
    ensures
        type_outcome(r) == Ok::<DataType, FunctionErrorView>(DataType::Int64),
{
    Ok(DataType::Int64)
}

/// The rewrite hook of `dow(date)`: it rewrites nothing.
pub fn dow_date_simplify<E>(args: Vec<E>) -> (r: Result<ExprSimplifyResult<E>, FunctionError>)
    ensures
        r is Ok,
        r->Ok_0@ == kept(args@),
{
    keep_original(args)
}

/// Invokes `dow(timestamp(p))` on the arguments `args`: the day of the week
/// of the first argument, Monday being 1 and Sunday 7.
pub fn dow_timestamp_p_invoke(args: &[ColumnarValue]) -> (r: Result<ColumnarValue, FunctionError>)
    ensures
        columnar_outcome(r) == scalar_function_result(Kernel::DayOfWeek, columnar_views(args@)),
{
    if args.len() == 0 {
        return Err(FunctionError::missing_argument("dow"));
    }
    apply_dow_kernel(&args[0])
}

/// The type of what `dow(timestamp(p))` returns: a 64-bit integer, whatever
/// the argument types.
pub fn dow_timestamp_p_return_type(_arg_types: &[DataType]) -> (r: Result<DataType, FunctionError>)
    ensures
        type_outcome(r) == Ok::<DataType, FunctionErrorView>(DataType::Int64),
{
    Ok(DataType::Int64)
}

/// The rewrite hook of `dow(timestamp(p))`: it rewrites nothing.
pub fn dow_timestamp_p_simplify<E>(args: Vec<E>) -> (r: Result<
    ExprSimplifyResult<E>,
    FunctionError,
>)
    ensures
        r is Ok,
        r->Ok_0@ == kept(args@),
{
    keep_original(args)
}

/// The overload `dow(date)`.
#[derive(Debug)]
pub struct dow_dateFunc {
    signature: Signature,
}

impl dow_dateFunc {
    /// The overload, which takes one argument of any type and is immutable.
    pub fn new() -> (r: Self)
        ensures
            r.signature().type_signature@ == seq![TypeSlot::Any],
            r.signature().volatility == Volatility::Immutable,
    {
        let signature = Signature::any(1, Volatility::Immutable);
        proof {
            assert(signature.type_signature@ =~= seq![TypeSlot::Any]);
        }
        Self { signature }
    }

    /// The name of the function: `dow`.
    pub fn name(&self) -> (r: &'static str)
        ensures
            r@ == "dow"@,
    {
        "dow"
    }

    /// The declared signature.
    #[verifier::when_used_as_spec(spec_signature)]
    pub fn signature(&self) -> (r: &Signature)
        ensures
            r == self.spec_signature(),
    {
        &self.signature
    }

    /// The declared signature.
    pub closed spec fn spec_signature(&self) -> &Signature {
        &self.signature
    }

    /// The type of the result: a 64-bit integer.
    pub fn return_type(&self, arg_types: &[DataType]) -> (r: Result<DataType, FunctionError>)
        ensures
            type_outcome(r) == Ok::<DataType, FunctionErrorView>(DataType::Int64),
    {
        dow_date_return_type(arg_types)
    }

    /// Invokes the function on the arguments `args`.
    pub fn invoke(&self, args: &[ColumnarValue]) -> (r: Result<ColumnarValue, FunctionError>)
        ensures
            columnar_outcome(r) == scalar_function_result(
                Kernel::DayOfWeek,
                columnar_views(args@),
            ),
    {
        dow_date_invoke(args)
    }

    /// The rewrite hook: it rewrites nothing.
    pub fn simplify<E>(&self, args: Vec<E>) -> (r: Result<ExprSimplifyResult<E>, FunctionError>)
        ensures
            r is Ok,
            r->Ok_0@ == kept(args@),
    {
        dow_date_simplify(args)
    }
}

/// The overload `dow(timestamp(p))`.
#[derive(Debug)]
pub struct dow_timestamp_pFunc {
    signature: Signature,
}

impl dow_timestamp_pFunc {
    /// The overload, which takes one argument of any type and is immutable.
    pub fn new() -> (r: Self)
        ensures
            r.signature().type_signature@ == seq![TypeSlot::Any],
            r.signature().volatility == Volatility::Immutable,
    {
        let signature = Signature::any(1, Volatility::Immutable);
        proof {
            assert(signature.type_signature@ =~= seq![TypeSlot::Any]);
        }
        Self { signature }
    }

    /// The name of the function: `dow`.
    pub fn name(&self) -> (r: &'static str)
        ensures
            r@ == "dow"@,
    {
        "dow"
    }

    /// The declared signature.
    #[verifier::when_used_as_spec(spec_signature)]
    pub fn signature(&self) -> (r: &Signature)
        ensures
            r == self.spec_signature(),
    {
        &self.signature
    }

    /// The declared signature.
    pub closed spec fn spec_signature(&self) -> &Signature {
        &self.signature
    }

    /// The type of the result: a 64-bit integer.
    pub fn return_type(&self, arg_types: &[DataType]) -> (r: Result<DataType, FunctionError>)
        ensures
            type_outcome(r) == Ok::<DataType, FunctionErrorView>(DataType::Int64),
    {
        dow_timestamp_p_return_type(arg_types)
    }

    /// Invokes the function on the arguments `args`.
    pub fn invoke(&self, args: &[ColumnarValue]) -> (r: Result<ColumnarValue, FunctionError>)
        ensures
            columnar_outcome(r) == scalar_function_result(
                Kernel::DayOfWeek,
                columnar_views(args@),
            ),
    {
        dow_timestamp_p_invoke(args)
    }

    /// The rewrite hook: it rewrites nothing.
    pub fn simplify<E>(&self, args: Vec<E>) -> (r: Result<ExprSimplifyResult<E>, FunctionError>)
        ensures
            r is Ok,
            r->Ok_0@ == kept(args@),
    {
        dow_timestamp_p_simplify(args)
    }
}

} // verus!
