//! Errors reported by return-type inference, dispatch and invocation.
use vstd::prelude::*;
use vstd::string::StringExecFns;
use crate::types::{DataType, join_type_labels, data_type_labels};

verus! {

/// Why a function call was rejected or could not be evaluated.
///
/// Every error is a function of the call alone: the same call fails the same
/// way again.
#[derive(Clone, Debug, PartialEq, Eq)]
pub enum FunctionError {
    /// The function or overload is recognised but deliberately unsupported.
    NotImplemented { name: String, detail: String },
    /// An invariant of the framework was violated, such as an argument that
    /// has another representation at execution than planning promised.
    Internal(String),
    /// No overload of the named function accepts the argument types.
    UnsupportedSignature { name: String, arg_types: Vec<DataType> },
}

/// The mathematical value of a [`FunctionError`].
pub enum FunctionErrorView {
    NotImplemented { name: Seq<char>, detail: Seq<char> },
    Internal(Seq<char>),
    UnsupportedSignature { name: Seq<char>, arg_types: Seq<DataType> },
}

impl View for FunctionError {
    type V = FunctionErrorView;

    open spec fn view(&self) -> FunctionErrorView {
        match self {
            FunctionError::NotImplemented { name, detail } => FunctionErrorView::NotImplemented {
                name: name@,
                detail: detail@,
            },
            FunctionError::Internal(message) => FunctionErrorView::Internal(message@),
            FunctionError::UnsupportedSignature { name, arg_types } => {
                FunctionErrorView::UnsupportedSignature { name: name@, arg_types: arg_types@ }
            },
        }
    }
}

/// The text of the internal error for an argument that does not have the
/// representation its overload expects.
pub open spec fn cast_failure_text(argument: Seq<char>, expected: Seq<char>) -> Seq<char> {
    "could not cast "@ + argument + " to "@ + expected
}

/// The text of the internal error for a call that hands a function no
/// argument.
pub open spec fn missing_argument_text(function: Seq<char>) -> Seq<char> {
    function + " was called without an argument"@
}

/// The one-line text of an error.
pub open spec fn error_text(e: FunctionErrorView) -> Seq<char> {
    match e {
        FunctionErrorView::NotImplemented { name, detail } => name + " is not implemented: "@
            + detail,
        FunctionErrorView::Internal(message) => "internal error: "@ + message,
        FunctionErrorView::UnsupportedSignature { name, arg_types } => "no overload of "@ + name
            + " accepts ("@ + data_type_labels(arg_types) + ")"@,
    }
}

impl FunctionError {
    /// The error of a recognised but unsupported function or overload.
    pub fn not_implemented(name: &str, detail: &str) -> (e: FunctionError)
        ensures
            e@ == (FunctionErrorView::NotImplemented { name: name@, detail: detail@ }),
    {
        FunctionError::NotImplemented {
            name: String::from_str(name),
            detail: String::from_str(detail),
        }
    }

    /// The internal error with the text `message`.
    pub fn internal(message: String) -> (e: FunctionError)
        ensures
            e@ == FunctionErrorView::Internal(message@),
    {
        FunctionError::Internal(message)
    }

    /// The error of an argument that cannot be read as the representation
    /// `expected`.
    pub fn cast_failure(argument: &str, expected: &str) -> (e: FunctionError)
        ensures
            e@ == FunctionErrorView::Internal(cast_failure_text(argument@, expected@)),
    {
        let mut message = String::from_str("could not cast ");
        message.append(argument);
        message.append(" to ");
        message.append(expected);
        FunctionError::Internal(message)
    }

    /// The error of a call that hands a function no argument.
    pub fn missing_argument(function: &str) -> (e: FunctionError)
        ensures
            e@ == FunctionErrorView::Internal(missing_argument_text(function@)),
    {
        let mut message = String::from_str(function);
        message.append(" was called without an argument");
        FunctionError::Internal(message)
    }

    /// The error of a call whose argument types no overload of `name` accepts.
    pub fn unsupported_signature(name: &str, arg_types: &[DataType]) -> (e: FunctionError)
        ensures
            e@ == (FunctionErrorView::UnsupportedSignature { name: name@, arg_types: arg_types@ }),
    {
        let mut types: Vec<DataType> = Vec::new();
        let mut i: usize = 0;
        while i < arg_types.len()
            invariant
                i <= arg_types.len(),
                types@ == arg_types@.take(i as int),
            decreases arg_types.len() - i,
        {
            types.push(arg_types[i]);
            proof {
                assert(arg_types@.take(i + 1) == arg_types@.take(i as int).push(arg_types@[i as int]));
            }
            i += 1;
        }
        proof {
            assert(arg_types@.take(arg_types@.len() as int) == arg_types@);
        }
        FunctionError::UnsupportedSignature { name: String::from_str(name), arg_types: types }
    }

    /// The one-line text of this error, naming the function and, for a call
    /// that no overload accepts, the argument types.
    pub fn message(&self) -> (r: String)
        ensures
            r@ == error_text(self@),
    {
        match self {
            FunctionError::NotImplemented { name, detail } => {
                let mut out = String::from_str(name.as_str());
                out.append(" is not implemented: ");
                out.append(detail.as_str());
                out
            },
            FunctionError::Internal(message) => {
                let mut out = String::from_str("internal error: ");
                out.append(message.as_str());
                out
            },
            FunctionError::UnsupportedSignature { name, arg_types } => {
                let mut out = String::from_str("no overload of ");
                out.append(name.as_str());
                out.append(" accepts (");
                let names = join_type_labels(arg_types.as_slice());
                out.append(names.as_str());
                out.append(")");
                out
            },
        }
    }
}

} // verus!
