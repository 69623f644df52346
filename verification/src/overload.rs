//! One overload of a function: a signature bound to return-type inference,
//! invocation and the rewrite hook of one implementation.
use vstd::prelude::*;
use crate::column::{
    ColumnView, ColumnarValue, ColumnarView, columnar_outcome, columnar_types, columnar_views,
    type_outcome,
};
use crate::error::{FunctionError, FunctionErrorView};
use crate::signature::{Signature, TypeSlot, Volatility, slots_admit};
use crate::simplify::{ExprSimplifyResult, keep_original, kept};
use crate::trino::dow_impl::{
    dow_date_invoke, dow_date_return_type, dow_timestamp_p_invoke, dow_timestamp_p_return_type,
};
use crate::trino::month_impl::{
    month_date_invoke, month_date_return_type, month_interval_unsupported,
    month_intervalyeartomonth_invoke, month_intervalyeartomonth_return_type,
    month_timestamp_p_invoke, month_timestamp_p_return_type, month_timestamp_unsupported,
};
use crate::trino::none_match_impl::{
    none_match_array_1_function_1_boolean_invoke,
    none_match_array_1_function_1_boolean_return_type, none_match_unsupported,
};
use crate::trino::to_hex_impl::{to_hex_varbinary_invoke, to_hex_varbinary_return_type};
use crate::types::DataType;
use crate::utils::{
    Kernel, lemma_kernel_keeps_nulls, lemma_kernel_keeps_rows, scalar_function_result,
};

verus! {

/// The implementations that an overload can be bound to.
#[derive(Clone, Copy, Debug, PartialEq, Eq, Structural)]
pub enum OverloadKind {
    /// `dow(date)`
    DowDate,
    /// `dow(timestamp(p))`
    DowTimestampP,
    /// `month(date)`
    MonthDate,
    /// `month(interval year to month)`, declared but not supported
    MonthIntervalYearToMonth,
    /// `month(timestamp(p))`, declared but not supported
    MonthTimestampP,
    /// `none_match(array(T), function(T, boolean))`, declared but not
    /// supported
    NoneMatch,
    /// `to_hex(varbinary)`
    ToHexVarbinary,
}

impl OverloadKind {
    /// The name of the function that the implementation belongs to.
    pub open spec fn function_label(self) -> Seq<char> {
        match self {
            OverloadKind::DowDate => "dow"@,
            OverloadKind::DowTimestampP => "dow"@,
            OverloadKind::MonthDate => "month"@,
            OverloadKind::MonthIntervalYearToMonth => "month"@,
            OverloadKind::MonthTimestampP => "month"@,
            OverloadKind::NoneMatch => "none_match"@,
            OverloadKind::ToHexVarbinary => "to_hex"@,
        }
    }

    /// The number of arguments that the implementation is declared with.
    pub open spec fn declared_arity(self) -> nat {
        match self {
            OverloadKind::NoneMatch => 2,
            _ => 1,
        }
    }

    /// The kernel of the implementation, where it is supported.
    pub open spec fn kernel(self) -> Option<Kernel> {
        match self {
            OverloadKind::DowDate => Some(Kernel::DayOfWeek),
            OverloadKind::DowTimestampP => Some(Kernel::DayOfWeek),
            OverloadKind::MonthDate => Some(Kernel::Month),
            OverloadKind::MonthIntervalYearToMonth => None,
            OverloadKind::MonthTimestampP => None,
            OverloadKind::NoneMatch => None,
            OverloadKind::ToHexVarbinary => Some(Kernel::ToHex),
        }
    }

    /// The error with which both return-type inference and invocation fail,
    /// where the implementation is not supported.
    pub open spec fn unsupported(self) -> Option<FunctionErrorView> {
        match self {
            OverloadKind::MonthIntervalYearToMonth => Some(month_interval_unsupported()),
            OverloadKind::MonthTimestampP => Some(month_timestamp_unsupported()),
            OverloadKind::NoneMatch => Some(none_match_unsupported()),
            _ => None,
        }
    }

    /// What return-type inference answers: the output type of the kernel,
    /// whatever the argument types, or the error of an implementation that is
    /// not supported.
    pub open spec fn return_type_result(self, arg_types: Seq<DataType>) -> Result<
        DataType,
        FunctionErrorView,
    > {
        match self.kernel() {
            Some(kernel) => Ok(kernel.output_type()),
            None => Err(self.unsupported()->0),
        }
    }

    /// What invocation returns: the kernel's result for the first argument,
    /// or the error of an implementation that is not supported.
    pub open spec fn invoke_result(self, args: Seq<ColumnarView>) -> Result<
        ColumnarView,
        FunctionErrorView,
    > {
        match self.kernel() {
            Some(kernel) => scalar_function_result(kernel, args),
            None => Err(self.unsupported()->0),
        }
    }

    /// The overload of this implementation as it is declared: it takes the
    /// declared number of arguments, of any type, and is immutable.
    pub open spec fn declared(self) -> OverloadView {
        OverloadView {
            slots: Seq::new(self.declared_arity(), |i: int| TypeSlot::Any),
            volatility: Volatility::Immutable,
            kind: self,
        }
    }

    /// The name of the function that the implementation belongs to.
    pub fn function_name(&self) -> (r: &'static str)
        ensures
            r@ == self.function_label(),
    {
        match self {
            OverloadKind::DowDate => "dow",
            OverloadKind::DowTimestampP => "dow",
            OverloadKind::MonthDate => "month",
            OverloadKind::MonthIntervalYearToMonth => "month",
            OverloadKind::MonthTimestampP => "month",
            OverloadKind::NoneMatch => "none_match",
            OverloadKind::ToHexVarbinary => "to_hex",
        }
    }

    /// The number of arguments that the implementation is declared with.
    pub fn arity(&self) -> (r: usize)
        ensures
            r == self.declared_arity(),
    {
        match self {
            OverloadKind::NoneMatch => 2,
            _ => 1,
        }
    }
}

/// One overload: a signature and the implementation bound to it.
#[derive(Debug)]
pub struct OverloadImpl {
    signature: Signature,
    kind: OverloadKind,
}

/// The mathematical value of an [`OverloadImpl`].
pub struct OverloadView {
    pub slots: Seq<TypeSlot>,
    pub volatility: Volatility,
    pub kind: OverloadKind,
}

impl View for OverloadImpl {
    type V = OverloadView;

    closed spec fn view(&self) -> OverloadView {
        OverloadView {
            slots: self.signature.type_signature@,
            volatility: self.signature.volatility,
            kind: self.kind,
        }
    }
}

impl Clone for OverloadImpl {
    fn clone(&self) -> (r: OverloadImpl)
        ensures
            r@ == self@,
    {
        OverloadImpl { signature: self.signature.clone(), kind: self.kind }
    }
}

impl OverloadImpl {
    /// The overload of `kind` as it is declared: it takes the declared
    /// number of arguments, of any type, and is immutable.
    pub fn new(kind: OverloadKind) -> (r: OverloadImpl)
        ensures
            r@ == kind.declared(),
    {
        OverloadImpl { signature: Signature::any(kind.arity(), Volatility::Immutable), kind }
    }

    /// The overload that binds `kind` to the signature `signature`.
    pub fn with_signature(kind: OverloadKind, signature: Signature) -> (r: OverloadImpl)
        ensures
            r@ == (OverloadView {
                slots: signature.type_signature@,
                volatility: signature.volatility,
                kind,
            }),
    {
        OverloadImpl { signature, kind }
    }

    /// The implementation that the overload is bound to.
    pub fn kind(&self) -> (r: OverloadKind)
        ensures
            r == self@.kind,
    {
        self.kind
    }

    /// The signature of the overload.
    pub fn signature(&self) -> (r: &Signature)
        ensures
            r.type_signature@ == self@.slots,
            r.volatility == self@.volatility,
    {
        &self.signature
    }

    /// The name of the function that the overload belongs to.
    pub fn name(&self) -> (r: &'static str)
        ensures
            r@ == self@.kind.function_label(),
    {
        self.kind.function_name()
    }

    /// Whether a call with the argument types `arg_types` fits the
    /// signature of the overload.
    pub fn accepts(&self, arg_types: &[DataType]) -> (r: bool)
        ensures
            r == slots_admit(self@.slots, arg_types@),
    {
        self.signature.accepts(arg_types)
    }

    /// The type of what the overload returns for arguments of the types
    /// `arg_types`.
    pub fn return_type(&self, arg_types: &[DataType]) -> (r: Result<DataType, FunctionError>)
        ensures
            type_outcome(r) == self@.kind.return_type_result(arg_types@),
    {
        match self.kind {
            OverloadKind::DowDate => dow_date_return_type(arg_types),
            OverloadKind::DowTimestampP => dow_timestamp_p_return_type(arg_types),
            OverloadKind::MonthDate => month_date_return_type(arg_types),
            OverloadKind::MonthIntervalYearToMonth => month_intervalyeartomonth_return_type(
                arg_types,
            ),
            OverloadKind::MonthTimestampP => month_timestamp_p_return_type(arg_types),
            OverloadKind::NoneMatch => none_match_array_1_function_1_boolean_return_type(
                arg_types,
            ),
            OverloadKind::ToHexVarbinary => to_hex_varbinary_return_type(arg_types),
        }
    }

    /// Invokes the overload on the arguments `args`.
    pub fn invoke(&self, args: &[ColumnarValue]) -> (r: Result<ColumnarValue, FunctionError>)
        ensures
            columnar_outcome(r) == self@.kind.invoke_result(columnar_views(args@)),
    {
        match self.kind {
            OverloadKind::DowDate => dow_date_invoke(args),
            OverloadKind::DowTimestampP => dow_timestamp_p_invoke(args),
            OverloadKind::MonthDate => month_date_invoke(args),
            OverloadKind::MonthIntervalYearToMonth => month_intervalyeartomonth_invoke(args),
            OverloadKind::MonthTimestampP => month_timestamp_p_invoke(args),
            OverloadKind::NoneMatch => none_match_array_1_function_1_boolean_invoke(args),
            OverloadKind::ToHexVarbinary => to_hex_varbinary_invoke(args),
        }
    }

    /// The rewrite hook of the overload. No overload rewrites its call: the
    /// arguments come back unchanged.
    pub fn simplify<E>(&self, args: Vec<E>) -> (r: Result<ExprSimplifyResult<E>, FunctionError>)
        ensures
            r is Ok,
            r->Ok_0@ == kept(args@),
    {
        keep_original(args)
    }
}

/// Return-type inference and invocation agree: where an overload returns a
/// value for some arguments, the value has the type that return-type
/// inference answers for the types of these arguments.
pub proof fn lemma_return_type_is_type_of_result(kind: OverloadKind, args: Seq<ColumnarView>)
    ensures
        kind.invoke_result(args) matches Ok(value) ==> kind.return_type_result(
            columnar_types(args),
        ) == Ok::<DataType, FunctionErrorView>(value.data_type()),
{
}

/// A batch in, a batch of as many rows out; a single value in, a single
/// value out.
pub proof fn lemma_invoke_keeps_rows(kind: OverloadKind, args: Seq<ColumnarView>)
    requires
        args.len() > 0,
    ensures
        kind.invoke_result(args) matches Ok(value) ==> match args[0] {
            ColumnarView::Array(column) => value matches ColumnarView::Array(out) && out.len()
                == column.len(),
            ColumnarView::Scalar(_) => value is Scalar,
        },
{
    if kind.kernel() is Some {
        let kernel = kind.kernel()->0;
        match args[0] {
            ColumnarView::Array(column) => {
                lemma_kernel_keeps_rows(kernel, column);
            },
            ColumnarView::Scalar(_) => {},
        }
    }
}

/// An overload fails in return-type inference exactly if it is not
/// supported, and then it fails in invocation with the same error, whatever
/// the arguments.
pub proof fn lemma_unsupported_fails_both_ways(
    kind: OverloadKind,
    arg_types: Seq<DataType>,
    args: Seq<ColumnarView>,
)
    ensures
        kind.return_type_result(arg_types) is Err <==> kind.kernel() is None,
        kind.kernel() is None ==> kind.invoke_result(args) is Err
            && kind.invoke_result(args)->Err_0 == kind.return_type_result(arg_types)->Err_0
            && kind.invoke_result(args)->Err_0 is NotImplemented,
{
}

/// A supported overload turns a batch of nulls of a type that its kernel
/// takes into a batch of as many nulls, of the type that return-type
/// inference answers for that argument type.
pub proof fn lemma_nulls_in_nulls_out(kind: OverloadKind, column: ColumnView)
    requires
        kind.kernel() matches Some(kernel) && kernel.takes(column.data_type()),
        column.all_null(),
    ensures
        kind.invoke_result(seq![ColumnarView::Array(column)]) matches Ok(
            ColumnarView::Array(out),
        ) && out.all_null() && out.len() == column.len() && kind.return_type_result(
            seq![column.data_type()],
        ) == Ok::<DataType, FunctionErrorView>(out.data_type()),
{
    lemma_kernel_keeps_nulls(kind.kernel()->0, column);
}

} // verus!
