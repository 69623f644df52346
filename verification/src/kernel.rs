//! Applies an element transform to a column and passes nulls through.
use vstd::prelude::*;
use crate::column::Column;
use crate::error::{FunctionError, FunctionErrorView, cast_failure_text};

verus! {

/// Whether `transform` can return `Ok` on `value`.
pub open spec fn may_succeed<T, U, F: Fn(&T) -> Result<U, FunctionError>>(
    transform: F,
    value: T,
) -> bool {
    exists|out: U| call_ensures(transform, (&value,), Ok::<U, FunctionError>(out))
}

/// Applies `transform` to every value of `input` that is not null.
///
/// The result has as many rows as `input`. A null row stays null, and any
/// other row holds what `transform` returned for its value. The first error
/// that `transform` raises, in row order, ends the batch: it is returned and
/// no row is.
pub fn apply_nullable<T, U, F: Fn(&T) -> Result<U, FunctionError>>(
    input: &Vec<Option<T>>,
    transform: F,
) -> (r: Result<Vec<Option<U>>, FunctionError>)
    requires
        forall|i: int|
            0 <= i < input@.len() && input@[i] is Some ==> call_requires(
                transform,
                (&(#[trigger] input@[i])->0,),
            ),
    ensures
        match r {
            Ok(out) => {
                &&& out@.len() == input@.len()
                &&& forall|i: int|
                    0 <= i < input@.len() ==> match #[trigger] input@[i] {
                        None => out@[i] is None,
                        Some(value) => out@[i] is Some && call_ensures(
                            transform,
                            (&value,),
                            Ok::<U, FunctionError>(out@[i]->0),
                        ),
                    }
            },
            Err(e) => exists|k: int|
                {
                    &&& 0 <= k < input@.len()
                    &&& (#[trigger] input@[k]) is Some
                    &&& call_ensures(transform, (&input@[k]->0,), Err::<U, FunctionError>(e))
                    &&& forall|j: int|
                        0 <= j < k && (#[trigger] input@[j]) is Some ==> may_succeed(
                            transform,
                            input@[j]->0,
                        )
                },
        },
{
    let mut out: Vec<Option<U>> = Vec::new();
    let mut i: usize = 0;
    while i < input.len()
        invariant
            i <= input@.len(),
            out@.len() == i,
            forall|j: int|
                0 <= j < input@.len() && input@[j] is Some ==> call_requires(
                    transform,
                    (&(#[trigger] input@[j])->0,),
                ),
            forall|j: int|
                0 <= j < i ==> match #[trigger] input@[j] {
                    None => out@[j] is None,
                    Some(value) => out@[j] is Some && call_ensures(
                        transform,
                        (&value,),
                        Ok::<U, FunctionError>(out@[j]->0),
                    ),
                },
        decreases input@.len() - i,
    {
        match &input[i] {
            None => {
                out.push(None);
            },
            Some(value) => {
                match transform(value) {
                    Ok(mapped) => {
                        out.push(Some(mapped));
                    },
                    Err(e) => {
                        proof {
                            assert(input@[i as int] is Some);
                            assert forall|j: int|
                                0 <= j < i && (#[trigger] input@[j]) is Some implies may_succeed(
                                transform,
                                input@[j]->0,
                            ) by {
                                assert(call_ensures(
                                    transform,
                                    (&input@[j]->0,),
                                    Ok::<U, FunctionError>(out@[j]->0),
                                ));
                            }
                        }
                        return Err(e);
                    },
                }
            },
        }
        i += 1;
    }
    Ok(out)
}

/// The rows of a binary column, or the internal error that names `argument`
/// where `column` holds rows of another type.
pub fn as_binary_rows<'a>(column: &'a Column, argument: &str) -> (r: Result<
    &'a Vec<Option<Vec<u8>>>,
    FunctionError,
>)
    ensures
        match r {
            Ok(rows) => *column == Column::Binary(*rows),
            Err(e) => !(column is Binary) && e@ == FunctionErrorView::Internal(
                cast_failure_text(argument@, "Binary"@),
            ),
        },
{
    match column {
        Column::Binary(rows) => Ok(rows),
        _ => Err(FunctionError::cast_failure(argument, "Binary")),
    }
}

} // verus!
