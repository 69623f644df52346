//! What the optimizer's rewrite hook of an overload answers.
use vstd::prelude::*;
use crate::error::FunctionError;

verus! {

/// The answer of a rewrite hook to a call with arguments of type `E`.
#[derive(Debug)]
pub enum ExprSimplifyResult<E> {
    /// The call was rewritten into this expression.
    Simplified(E),
    /// The call stays as it is; these are its arguments, unchanged.
    Original(Vec<E>),
}

/// The mathematical value of an [`ExprSimplifyResult`].
pub enum SimplifyOutcome<E> {
    Simplified(E),
    Original(Seq<E>),
}

impl<E> View for ExprSimplifyResult<E> {
    type V = SimplifyOutcome<E>;

    open spec fn view(&self) -> SimplifyOutcome<E> {
        match self {
            ExprSimplifyResult::Simplified(e) => SimplifyOutcome::Simplified(*e),
            ExprSimplifyResult::Original(args) => SimplifyOutcome::Original(args@),
        }
    }
}

/// What a hook that rewrites nothing answers to a call with the arguments
/// `args`.
pub open spec fn kept<E>(args: Seq<E>) -> SimplifyOutcome<E> {
    SimplifyOutcome::Original(args)
}

/// The answer of a hook that rewrites nothing: the arguments, unchanged.
pub fn keep_original<E>(args: Vec<E>) -> (r: Result<ExprSimplifyResult<E>, FunctionError>)
    ensures
        r is Ok,
        r->Ok_0@ == kept(args@),
{
    Ok(ExprSimplifyResult::Original(args))
}

/// A hook that rewrites nothing answers a second time what it answered the
/// first time: asked again about the arguments it handed back, it hands the
/// same arguments back.
pub proof fn lemma_kept_is_idempotent<E>(args: Seq<E>)
    ensures
        kept(args) matches SimplifyOutcome::Original(once) && kept(once) == kept(args),
{
}

} // verus!
