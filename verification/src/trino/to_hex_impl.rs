//! `to_hex(varbinary)`: the lowercase hexadecimal text of a binary value.
use vstd::prelude::*;
use crate::column::{
    Column, ColumnView, ColumnarValue, bytes_cells, column_outcome, columnar_outcome,
    columnar_views, text_cells, type_outcome,
};
use crate::error::{FunctionError, FunctionErrorView, cast_failure_text};
use crate::hex::{encode_hex, hex_text};
use crate::kernel::{apply_nullable, as_binary_rows};
use crate::signature::{Signature, TypeSlot, Volatility};
use crate::simplify::{ExprSimplifyResult, keep_original, kept};
use crate::types::DataType;
use crate::utils::{Kernel, make_scalar_function, scalar_function_result};

verus! {

/// Invokes `to_hex` on the arguments `args`.
pub fn to_hex_varbinary_invoke(args: &[ColumnarValue]) -> (r: Result<ColumnarValue, FunctionError>)
    ensures
        columnar_outcome(r) == scalar_function_result(Kernel::ToHex, columnar_views(args@)),
{
    make_scalar_function(Kernel::ToHex, args)
}

/// The hexadecimal text of each row of a binary column; a null row stays
/// null.
pub open spec fn hex_rows(rows: Seq<Option<Seq<u8>>>) -> Seq<Option<Seq<char>>> {
    Seq::new(
        rows.len(),
        |i: int|
            match rows[i] {
                Some(bytes) => Some(hex_text(bytes)),
                None => None,
            },
    )
}

/// What [`to_hex`] returns for a column.
pub open spec fn to_hex_result(column: ColumnView) -> Result<ColumnView, FunctionErrorView> {
    match column {
        ColumnView::Binary(rows) => Ok(ColumnView::Utf8(hex_rows(rows))),
        _ => Err(
            FunctionErrorView::Internal(
                cast_failure_text("the argument of to_hex"@, "Binary"@),
            ),
        ),
    }
}

/// The column of the hexadecimal texts of a binary column: for each row two
/// lowercase digits for each byte, in the order of the bytes; the empty text
/// for a row without bytes; null for a null row.
///
/// A column of another type is an internal error.
pub fn to_hex(column: &Column) -> (r: Result<Column, FunctionError>)
    ensures
        column_outcome(r) == to_hex_result(column@),
{
    let rows = match as_binary_rows(column, "the argument of to_hex") {
        Ok(rows) => rows,
        Err(e) => {
            return Err(e);
        },
    };
    let encode = |bytes: &Vec<u8>| -> (r: Result<String, FunctionError>)
        ensures
            r is Ok,
            r->Ok_0@ == hex_text(bytes@),
        { Ok(encode_hex(bytes.as_slice())) };
    match apply_nullable(rows, encode) {
        Ok(texts) => {
            proof {
                assert(text_cells(texts@) =~= hex_rows(bytes_cells(rows@)));
            }
            Ok(Column::Utf8(texts))
        },
        Err(e) => Err(e),
    }
}

/// The type of what `to_hex` returns: text, whatever the argument types.
pub fn to_hex_varbinary_return_type(_arg_types: &[DataType]) -> (r: Result<DataType, FunctionError>)
    ensures
        type_outcome(r) == Ok::<DataType, FunctionErrorView>(DataType::Utf8),
{
    Ok(DataType::Utf8)
}

/// The rewrite hook of `to_hex`: it rewrites nothing.
pub fn to_hex_varbinary_simplify<E>(args: Vec<E>) -> (r: Result<
    ExprSimplifyResult<E>,
    FunctionError,
>)
    ensures
        r is Ok,
        r->Ok_0@ == kept(args@),
{
    keep_original(args)
}

/// The overload `to_hex(varbinary)`.
#[derive(Debug)]
pub struct to_hex_varbinaryFunc {
    signature: Signature,
}

impl to_hex_varbinaryFunc {
    /// The overload, which takes one argument of any type and is immutable.
    pub fn new() -> (r: Self)
        ensures
            r.signature().type_signature@ == seq![TypeSlot::Any],
            r.signature().volatility == Volatility::Immutable,
    {
        let signature = Signature::any(1, Volatility::Immutable);
        proof {
            assert(signature.type_signature@ =~= seq![TypeSlot::Any]);
        }
        Self { signature }
    }

    /// The name of the function: `to_hex`.
    pub fn name(&self) -> (r: &'static str)
        ensures
            r@ == "to_hex"@,
    {
        "to_hex"
    }

    /// The declared signature.
    #[verifier::when_used_as_spec(spec_signature)]
    pub fn signature(&self) -> (r: &Signature)
        ensures
            r == self.spec_signature(),
    {
        &self.signature
    }

    /// The declared signature.
    pub closed spec fn spec_signature(&self) -> &Signature {
        &self.signature
    }

    /// The type of the result: text.
    pub fn return_type(&self, arg_types: &[DataType]) -> (r: Result<DataType, FunctionError>)
        ensures
            type_outcome(r) == Ok::<DataType, FunctionErrorView>(DataType::Utf8),
    {
        to_hex_varbinary_return_type(arg_types)
    }

    /// Invokes the function on the arguments `args`.
    pub fn invoke(&self, args: &[ColumnarValue]) -> (r: Result<ColumnarValue, FunctionError>)
        ensures
            columnar_outcome(r) == scalar_function_result(Kernel::ToHex, columnar_views(args@)),
    {
        to_hex_varbinary_invoke(args)
    }

    /// The rewrite hook: it rewrites nothing.
    pub fn simplify<E>(&self, args: Vec<E>) -> (r: Result<ExprSimplifyResult<E>, FunctionError>)
        ensures
            r is Ok,
            r->Ok_0@ == kept(args@),
    {
        to_hex_varbinary_simplify(args)
    }
}

} // verus!
