//! `none_match(array(T), function(T, boolean))`: whether no element of an
//! array matches a predicate. The overload is declared, with the shape of
//! its arguments, but not supported.
use vstd::prelude::*;
use crate::column::{ColumnarValue, ColumnarView, columnar_outcome, type_outcome};
use crate::error::{FunctionError, FunctionErrorView};
use crate::signature::{Signature, TypeSlot, Volatility};
use crate::simplify::{ExprSimplifyResult, keep_original, kept};
use crate::types::DataType;

verus! {

/// The error of `none_match`, which is declared but not supported.
pub open spec fn none_match_unsupported() -> FunctionErrorView {
    FunctionErrorView::NotImplemented {
        name: "none_match"@,
        detail: "array and predicate arguments are not supported"@,
    }
}

/// Invoking `none_match` always fails: the overload is declared but not
/// supported.
pub fn none_match_array_1_function_1_boolean_invoke(_args: &[ColumnarValue]) -> (r: Result<
    ColumnarValue,
    FunctionError,
>)
    ensures
        columnar_outcome(r) == Err::<ColumnarView, FunctionErrorView>(none_match_unsupported()),
{
    Err(
        FunctionError::not_implemented(
            "none_match",
            "array and predicate arguments are not supported",
        ),
    )
}

/// Return-type inference of `none_match` always fails: the overload is
/// declared but not supported.
pub fn none_match_array_1_function_1_boolean_return_type(_arg_types: &[DataType]) -> (r: Result<
    DataType,
    FunctionError,
>)
    ensures
        type_outcome(r) == Err::<DataType, FunctionErrorView>(none_match_unsupported()),
{
    Err(
        FunctionError::not_implemented(
            "none_match",
            "array and predicate arguments are not supported",
        ),
    )
}

/// The rewrite hook of `none_match`: it rewrites nothing.
pub fn none_match_array_1_function_1_boolean_simplify<E>(args: Vec<E>) -> (r: Result<
    ExprSimplifyResult<E>,
    FunctionError,
>)
    ensures
        r is Ok,
        r->Ok_0@ == kept(args@),
{
    keep_original(args)
}

/// The overload `none_match(array(T), function(T, boolean))`, declared but
/// not supported.
#[derive(Debug)]
pub struct none_match_array_1_function_1_booleanFunc {
    signature: Signature,
}

impl none_match_array_1_function_1_booleanFunc {
    /// The overload, which takes two arguments of any type and is immutable.
    pub fn new() -> (r: Self)
        ensures
            r.signature().type_signature@ == seq![TypeSlot::Any, TypeSlot::Any],
            r.signature().volatility == Volatility::Immutable,
    {
        let signature = Signature::any(2, Volatility::Immutable);
        proof {
            assert(signature.type_signature@ =~= seq![TypeSlot::Any, TypeSlot::Any]);
        }
        Self { signature }
    }

    /// The name of the function: `none_match`.
    pub fn name(&self) -> (r: &'static str)
        ensures
            r@ == "none_match"@,
    {
        "none_match"
    }

    /// The declared signature.
    #[verifier::when_used_as_spec(spec_signature)]
    pub fn signature(&self) -> (r: &Signature)
        ensures
            r == self.spec_signature(),
    {
        &self.signature
    }

    /// The declared signature.
    pub closed spec fn spec_signature(&self) -> &Signature {
        &self.signature
    }

    /// Return-type inference, which always fails.
    pub fn return_type(&self, arg_types: &[DataType]) -> (r: Result<DataType, FunctionError>)
        ensures
            type_outcome(r) == Err::<DataType, FunctionErrorView>(none_match_unsupported()),
    {
        none_match_array_1_function_1_boolean_return_type(arg_types)
    }

    /// Invocation, which always fails.
    pub fn invoke(&self, args: &[ColumnarValue]) -> (r: Result<ColumnarValue, FunctionError>)
        ensures
            columnar_outcome(r) == Err::<ColumnarView, FunctionErrorView>(
                none_match_unsupported(),
            ),
    {
        none_match_array_1_function_1_boolean_invoke(args)
    }

    /// The rewrite hook: it rewrites nothing.
    pub fn simplify<E>(&self, args: Vec<E>) -> (r: Result<ExprSimplifyResult<E>, FunctionError>)
        ensures
            r is Ok,
            r->Ok_0@ == kept(args@),
    {
        none_match_array_1_function_1_boolean_simplify(args)
    }
}

} // verus!
