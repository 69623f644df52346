//! A logical function: a name that owns overloads in declaration order and
//! sends a call to the first overload whose signature accepts the argument
//! types.
use vstd::prelude::*;
use vstd::string::StringExecFns;
use crate::column::{
    ColumnView, ColumnarValue, ColumnarView, argument_types, columnar_outcome, columnar_types,
    columnar_views, type_outcome,
};
use crate::error::{FunctionError, FunctionErrorView};
use crate::overload::{
    OverloadImpl, OverloadView, lemma_nulls_in_nulls_out, lemma_return_type_is_type_of_result,
};
use crate::signature::slots_admit;
use crate::simplify::{ExprSimplifyResult, kept};
use crate::types::DataType;

verus! {

/// Whether the overload at index `i` is the one that a call with the
/// argument types `types` resolves to: it accepts the types, and no overload
/// declared before it does.
pub open spec fn is_first_match(overloads: Seq<OverloadView>, types: Seq<DataType>, i: int) -> bool {
    &&& 0 <= i < overloads.len()
    &&& slots_admit(overloads[i].slots, types)
    &&& forall|j: int| 0 <= j < i ==> !slots_admit((#[trigger] overloads[j]).slots, types)
}

/// Whether no overload accepts the argument types `types`.
pub open spec fn no_match(overloads: Seq<OverloadView>, types: Seq<DataType>) -> bool {
    forall|j: int| 0 <= j < overloads.len() ==> !slots_admit((#[trigger] overloads[j]).slots, types)
}

/// The index of the first overload, in declaration order, that accepts the
/// argument types `types`.
pub open spec fn first_match(overloads: Seq<OverloadView>, types: Seq<DataType>) -> Option<int>
    decreases overloads.len(),
{
    if overloads.len() == 0 {
        None
    } else {
        match first_match(overloads.drop_last(), types) {
            Some(i) => Some(i),
            None => if slots_admit(overloads.last().slots, types) {
                Some(overloads.len() - 1)
            } else {
                None
            },
        }
    }
}

/// `first_match` finds the overload that is the first match, and finds none
/// exactly if no overload accepts the types.
pub proof fn lemma_first_match(overloads: Seq<OverloadView>, types: Seq<DataType>)
    ensures
        match first_match(overloads, types) {
            Some(i) => is_first_match(overloads, types, i),
            None => no_match(overloads, types),
        },
    decreases overloads.len(),
{
    if overloads.len() > 0 {
        let front = overloads.drop_last();
        lemma_first_match(front, types);
        match first_match(front, types) {
            Some(i) => {
                assert(front[i] == overloads[i]);
                assert forall|j: int| 0 <= j < i implies !slots_admit(
                    (#[trigger] overloads[j]).slots,
                    types,
                ) by {
                    assert(front[j] == overloads[j]);
                }
            },
            None => {
                assert forall|j: int| 0 <= j < overloads.len() - 1 implies !slots_admit(
                    (#[trigger] overloads[j]).slots,
                    types,
                ) by {
                    assert(front[j] == overloads[j]);
                }
            },
        }
    }
}

/// Dispatch is deterministic: a call resolves to at most one overload. Two
/// indexes that are each the first match are the same index, and it is the
/// one that `first_match` finds.
pub proof fn lemma_dispatch_is_deterministic(
    overloads: Seq<OverloadView>,
    types: Seq<DataType>,
    i: int,
    j: int,
)
    requires
        is_first_match(overloads, types, i),
        is_first_match(overloads, types, j),
    ensures
        i == j,
        first_match(overloads, types) == Some(i),
{
    lemma_first_match(overloads, types);
    if i < j {
        assert(!slots_admit(overloads[i].slots, types));
    }
    if j < i {
        assert(!slots_admit(overloads[j].slots, types));
    }
    match first_match(overloads, types) {
        Some(k) => {
            if k < i {
                assert(!slots_admit(overloads[k].slots, types));
            }
            if i < k {
                assert(!slots_admit(overloads[i].slots, types));
            }
        },
        None => {
            assert(!slots_admit(overloads[i].slots, types));
        },
    }
}

/// The mathematical value of a [`FunctionFacade`].
pub struct FacadeView {
    pub name: Seq<char>,
    pub overloads: Seq<OverloadView>,
}

/// The mathematical values of a list of overloads.
pub open spec fn overload_views(overloads: Seq<OverloadImpl>) -> Seq<OverloadView> {
    Seq::new(overloads.len(), |i: int| overloads[i]@)
}

impl FacadeView {
    /// The error of a call whose argument types no overload accepts.
    pub open spec fn unsupported(self, types: Seq<DataType>) -> FunctionErrorView {
        FunctionErrorView::UnsupportedSignature { name: self.name, arg_types: types }
    }

    /// What dispatch answers for the argument types `types`: the index of
    /// the first overload that accepts them, or the error that names the
    /// function and the types where none does.
    pub open spec fn resolve(self, types: Seq<DataType>) -> Result<int, FunctionErrorView> {
        match first_match(self.overloads, types) {
            Some(i) => Ok(i),
            None => Err(self.unsupported(types)),
        }
    }

    /// What return-type inference answers for the argument types `types`:
    /// the answer of the overload that the call resolves to.
    pub open spec fn return_type_result(self, types: Seq<DataType>) -> Result<
        DataType,
        FunctionErrorView,
    > {
        match self.resolve(types) {
            Ok(i) => self.overloads[i].kind.return_type_result(types),
            Err(e) => Err(e),
        }
    }

    /// What invocation returns for the arguments `args`: the result of the
    /// overload that the types of the arguments resolve to.
    pub open spec fn invoke_result(self, args: Seq<ColumnarView>) -> Result<
        ColumnarView,
        FunctionErrorView,
    > {
        match self.resolve(columnar_types(args)) {
            Ok(i) => self.overloads[i].kind.invoke_result(args),
            Err(e) => Err(e),
        }
    }
}

/// The mathematical value of what dispatch returned.
pub open spec fn index_outcome(r: Result<usize, FunctionError>) -> Result<int, FunctionErrorView> {
    match r {
        Ok(i) => Ok(i as int),
        Err(e) => Err(e@),
    }
}

/// A logical function and its overloads, in declaration order.
#[derive(Debug)]
pub struct FunctionFacade {
    name: String,
    overloads: Vec<OverloadImpl>,
}

impl View for FunctionFacade {
    type V = FacadeView;

    closed spec fn view(&self) -> FacadeView {
        FacadeView { name: self.name@, overloads: overload_views(self.overloads@) }
    }
}

impl FunctionFacade {
    /// The function `name` with the overloads `overloads`, in this order.
    pub fn new(name: &str, overloads: Vec<OverloadImpl>) -> (r: FunctionFacade)
        ensures
            r@ == (FacadeView { name: name@, overloads: overload_views(overloads@) }),
    {
        FunctionFacade { name: String::from_str(name), overloads }
    }

    /// The name of the function.
    pub fn name(&self) -> (r: &str)
        ensures
            r@ == self@.name,
    {
        self.name.as_str()
    }

    /// The overloads, in declaration order.
    pub fn overloads(&self) -> (r: &[OverloadImpl])
        ensures
            overload_views(r@) == self@.overloads,
    {
        self.overloads.as_slice()
    }

    /// The overload at `index` in declaration order, or `None` where the
    /// function has no such overload. With the index that [`Self::resolve`]
    /// answered, this is the overload that a call is bound to.
    pub fn overload(&self, index: usize) -> (r: Option<&OverloadImpl>)
        ensures
            index < self@.overloads.len() ==> r is Some && r->0@ == self@.overloads[index as int],
            index >= self@.overloads.len() ==> r is None,
    {
        if index < self.overloads.len() {
            proof {
                assert(self@.overloads[index as int] == self.overloads@[index as int]@);
            }
            Some(&self.overloads[index])
        } else {
            None
        }
    }

    /// Resolves a call with the argument types `arg_types` to an overload.
    ///
    /// The answer is the index of the first overload, in declaration order,
    /// whose signature accepts the types. Where no overload accepts them the
    /// call is rejected with `UnsupportedSignature`, which names the function
    /// and the types: no overload is picked that does not accept the call.
    pub fn resolve(&self, arg_types: &[DataType]) -> (r: Result<usize, FunctionError>)
        ensures
            index_outcome(r) == self@.resolve(arg_types@),
            match r {
                Ok(i) => is_first_match(self@.overloads, arg_types@, i as int),
                Err(e) => no_match(self@.overloads, arg_types@) && e@ == self@.unsupported(
                    arg_types@,
                ),
            },
    {
        let ghost views = self@.overloads;
        let mut i: usize = 0;
        while i < self.overloads.len()
            invariant
                i <= self.overloads@.len(),
                views == overload_views(self.overloads@),
                forall|j: int| 0 <= j < i ==> !slots_admit((#[trigger] views[j]).slots, arg_types@),
            decreases self.overloads@.len() - i,
        {
            if self.overloads[i].accepts(arg_types) {
                proof {
                    assert(views[i as int] == self.overloads@[i as int]@);
                    assert(is_first_match(views, arg_types@, i as int));
                    lemma_first_match(views, arg_types@);
                    let found = first_match(views, arg_types@);
                    if found is Some {
                        lemma_dispatch_is_deterministic(views, arg_types@, i as int, found->0);
                    } else {
                        assert(!slots_admit(views[i as int].slots, arg_types@));
                    }
                }
                return Ok(i);
            }
            proof {
                assert(views[i as int] == self.overloads@[i as int]@);
            }
            i += 1;
        }
        proof {
            assert(no_match(views, arg_types@));
            lemma_first_match(views, arg_types@);
            let found = first_match(views, arg_types@);
            if found is Some {
                assert(slots_admit(views[found->0].slots, arg_types@));
            }
        }
        Err(FunctionError::unsupported_signature(self.name.as_str(), arg_types))
    }

    /// The type of what a call with the argument types `arg_types` returns:
    /// the answer of the overload that the call resolves to.
    pub fn return_type(&self, arg_types: &[DataType]) -> (r: Result<DataType, FunctionError>)
        ensures
            type_outcome(r) == self@.return_type_result(arg_types@),
    {
        match self.resolve(arg_types) {
            Ok(i) => {
                proof {
                    assert(self@.overloads[i as int] == self.overloads@[i as int]@);
                }
                self.overloads[i].return_type(arg_types)
            },
            Err(e) => Err(e),
        }
    }

    /// Invokes the function on the arguments `args`: resolves the types of
    /// the arguments to an overload and invokes that overload. A failure of
    /// dispatch or of the overload is returned as it is.
    pub fn invoke(&self, args: &[ColumnarValue]) -> (r: Result<ColumnarValue, FunctionError>)
        ensures
            columnar_outcome(r) == self@.invoke_result(columnar_views(args@)),
    {
        let types = argument_types(args);
        match self.resolve(types.as_slice()) {
            Ok(i) => {
                proof {
                    assert(self@.overloads[i as int] == self.overloads@[i as int]@);
                }
                self.overloads[i].invoke(args)
            },
            Err(e) => Err(e),
        }
    }

    /// The rewrite hook for a call with the argument types `arg_types` and
    /// the argument expressions `args`: the hook of the overload that the
    /// call resolves to. No overload rewrites its call, so the arguments come
    /// back unchanged.
    pub fn simplify<E>(&self, arg_types: &[DataType], args: Vec<E>) -> (r: Result<
        ExprSimplifyResult<E>,
        FunctionError,
    >)
        ensures
            match r {
                Ok(outcome) => self@.resolve(arg_types@) is Ok && outcome@ == kept(args@),
                Err(e) => self@.resolve(arg_types@) == Err::<int, FunctionErrorView>(e@),
            },
    {
        match self.resolve(arg_types) {
            Ok(i) => self.overloads[i].simplify(args),
            Err(e) => Err(e),
        }
    }
}

/// A call that no declared overload covers is rejected, and a call that is
/// not rejected goes to an overload that accepts it: dispatch fails exactly
/// if no overload accepts the argument types, and then with
/// `UnsupportedSignature`.
pub proof fn lemma_unmatched_is_unsupported(facade: FacadeView, types: Seq<DataType>)
    ensures
        no_match(facade.overloads, types) <==> facade.resolve(types) is Err,
        facade.resolve(types) matches Err(e) ==> e == facade.unsupported(types),
        facade.resolve(types) matches Ok(i) ==> 0 <= i < facade.overloads.len() && slots_admit(
            facade.overloads[i].slots,
            types,
        ),
{
    lemma_first_match(facade.overloads, types);
    match first_match(facade.overloads, types) {
        Some(i) => {
            assert(slots_admit(facade.overloads[i].slots, types));
        },
        None => {},
    }
}

/// Return-type inference and invocation agree for a function as they do for
/// each overload: where a call returns a value, the value has the type that
/// return-type inference answers for the types of its arguments.
pub proof fn lemma_facade_return_type_is_type_of_result(facade: FacadeView, args: Seq<ColumnarView>)
    ensures
        facade.invoke_result(args) matches Ok(value) ==> facade.return_type_result(
            columnar_types(args),
        ) == Ok::<DataType, FunctionErrorView>(value.data_type()),
{
    match facade.resolve(columnar_types(args)) {
        Ok(i) => {
            lemma_return_type_is_type_of_result(facade.overloads[i].kind, args);
        },
        Err(_) => {},
    }
}

/// A function turns a batch of nulls into a batch of as many nulls, of the
/// type that return-type inference answers for the type of the batch,
/// wherever the call resolves to a supported overload whose kernel takes
/// that type.
pub proof fn lemma_facade_nulls_in_nulls_out(facade: FacadeView, column: ColumnView)
    requires
        column.all_null(),
        facade.resolve(seq![column.data_type()]) matches Ok(i) && (
        facade.overloads[i].kind.kernel() matches Some(kernel) && kernel.takes(
            column.data_type(),
        )),
    ensures
        facade.invoke_result(seq![ColumnarView::Array(column)]) matches Ok(
            ColumnarView::Array(out),
        ) && out.all_null() && out.len() == column.len() && facade.return_type_result(
            seq![column.data_type()],
        ) == Ok::<DataType, FunctionErrorView>(out.data_type()),
{
    let args = seq![ColumnarView::Array(column)];
    let types = seq![column.data_type()];
    assert(columnar_types(args) =~= types);
    let i = facade.resolve(types)->Ok_0;
    lemma_nulls_in_nulls_out(facade.overloads[i].kind, column);
}

/// Where two overloads accept the same call, the one declared first wins.
pub proof fn lemma_first_declared_wins(facade: FacadeView, types: Seq<DataType>, k: int)
    requires
        0 <= k < facade.overloads.len(),
        slots_admit(facade.overloads[k].slots, types),
    ensures
        facade.resolve(types) matches Ok(i) && i <= k,
{
    lemma_first_match(facade.overloads, types);
    match first_match(facade.overloads, types) {
        Some(i) => {
            if k < i {
                assert(!slots_admit(facade.overloads[k].slots, types));
            }
        },
        None => {
            assert(!slots_admit(facade.overloads[k].slots, types));
        },
    }
}

} // verus!
