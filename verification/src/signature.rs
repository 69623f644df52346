//! What an overload declares of its arguments: how many it takes and which
//! type each position accepts.
use vstd::prelude::*;
use crate::types::DataType;

verus! {

/// How the result of a function depends on more than its arguments.
#[derive(Clone, Copy, Debug, PartialEq, Eq, Structural)]
pub enum Volatility {
    /// The same arguments always give the same result.
    Immutable,
    /// The same arguments give the same result within one query.
    Stable,
    /// The result may change from row to row.
    Volatile,
}

/// What one argument position accepts.
#[derive(Clone, Copy, Debug, PartialEq, Eq, Structural)]
pub enum TypeSlot {
    /// Any type.
    Any,
    /// This type and no other: nothing is widened here.
    Exact(DataType),
}

impl TypeSlot {
    /// Whether an argument of type `t` may stand in this position.
    pub open spec fn admits(self, t: DataType) -> bool {
        match self {
            TypeSlot::Any => true,
            TypeSlot::Exact(expected) => expected == t,
        }
    }

    /// Whether an argument of type `t` may stand in this position.
    pub fn accepts(&self, t: DataType) -> (r: bool)
        ensures
            r == self.admits(t),
    {
        match self {
            TypeSlot::Any => true,
            TypeSlot::Exact(expected) => *expected == t,
        }
    }
}

/// Whether the argument types `types` fit the positions `slots`: as many
/// arguments as positions, and each position admits the type that stands in
/// it.
pub open spec fn slots_admit(slots: Seq<TypeSlot>, types: Seq<DataType>) -> bool {
    &&& slots.len() == types.len()
    &&& forall|i: int| 0 <= i < slots.len() ==> (#[trigger] slots[i]).admits(types[i])
}

/// The accepted argument types of one overload, position by position.
#[derive(Debug, PartialEq, Eq)]
pub struct TypeSignature {
    arity: usize,
    slots: Vec<TypeSlot>,
}

impl View for TypeSignature {
    type V = Seq<TypeSlot>;

    closed spec fn view(&self) -> Seq<TypeSlot> {
        self.slots@
    }
}

impl Clone for TypeSignature {
    fn clone(&self) -> (r: TypeSignature)
        ensures
            r@ == self@,
    {
        let mut slots: Vec<TypeSlot> = Vec::new();
        let mut i: usize = 0;
        while i < self.slots.len()
            invariant
                i <= self.slots@.len(),
                slots@ == self.slots@.take(i as int),
            decreases self.slots@.len() - i,
        {
            slots.push(self.slots[i]);
            proof {
                assert(self.slots@.take(i + 1) == self.slots@.take(i as int).push(self.slots@[i as int]));
            }
            i += 1;
        }
        proof {
            assert(self.slots@.take(self.slots@.len() as int) == self.slots@);
        }
        TypeSignature { arity: slots.len(), slots }
    }
}

impl TypeSignature {
    /// The arity is the number of positions.
    #[verifier::type_invariant]
    spec fn arity_is_length(self) -> bool {
        self.arity == self.slots@.len()
    }

    /// The signature with the positions `slots`.
    pub fn new(slots: Vec<TypeSlot>) -> (r: TypeSignature)
        ensures
            r@ == slots@,
    {
        TypeSignature { arity: slots.len(), slots }
    }

    /// The signature that takes `arity` arguments of any type.
    pub fn any(arity: usize) -> (r: TypeSignature)
        ensures
            r@ == Seq::new(arity as nat, |i: int| TypeSlot::Any),
    {
        let mut slots: Vec<TypeSlot> = Vec::new();
        let mut i: usize = 0;
        while i < arity
            invariant
                i <= arity,
                slots@ == Seq::new(i as nat, |j: int| TypeSlot::Any),
            decreases arity - i,
        {
            slots.push(TypeSlot::Any);
            i += 1;
        }
        TypeSignature { arity, slots }
    }

    /// The signature that takes exactly the types `types`, in this order.
    pub fn exact(types: &[DataType]) -> (r: TypeSignature)
        ensures
            r@ == Seq::new(types@.len(), |i: int| TypeSlot::Exact(types@[i])),
    {
        let mut slots: Vec<TypeSlot> = Vec::new();
        let mut i: usize = 0;
        while i < types.len()
            invariant
                i <= types.len(),
                slots@ == Seq::new(i as nat, |j: int| TypeSlot::Exact(types@[j])),
            decreases types.len() - i,
        {
            slots.push(TypeSlot::Exact(types[i]));
            i += 1;
        }
        TypeSignature { arity: types.len(), slots }
    }

    /// The number of arguments that the overload takes.
    pub fn arity(&self) -> (r: usize)
        ensures
            r == self@.len(),
    {
        proof {
            use_type_invariant(self);
        }
        self.arity
    }

    /// The positions, first argument first.
    pub fn slots(&self) -> (r: &[TypeSlot])
        ensures
            r@ == self@,
    {
        self.slots.as_slice()
    }

    /// Whether a call with the argument types `arg_types` fits this
    /// signature.
    pub fn accepts(&self, arg_types: &[DataType]) -> (r: bool)
        ensures
            r == slots_admit(self@, arg_types@),
    {
        proof {
            use_type_invariant(self);
        }
        if self.arity != arg_types.len() {
            return false;
        }
        let mut i: usize = 0;
        while i < arg_types.len()
            invariant
                i <= arg_types.len(),
                self.slots@.len() == arg_types@.len(),
                forall|j: int| 0 <= j < i ==> (#[trigger] self.slots@[j]).admits(arg_types@[j]),
            decreases arg_types.len() - i,
        {
            if !self.slots[i].accepts(arg_types[i]) {
                return false;
            }
            i += 1;
        }
        true
    }
}

/// The signature of one overload: its accepted types and its volatility.
///
/// Whether a call fits depends on the types alone.
#[derive(Debug, PartialEq, Eq)]
pub struct Signature {
    pub type_signature: TypeSignature,
    pub volatility: Volatility,
}

impl Clone for Signature {
    fn clone(&self) -> (r: Signature)
        ensures
            r.type_signature@ == self.type_signature@,
            r.volatility == self.volatility,
    {
        Signature { type_signature: self.type_signature.clone(), volatility: self.volatility }
    }
}

impl Signature {
    /// The signature with the given accepted types and volatility.
    pub fn new(type_signature: TypeSignature, volatility: Volatility) -> (r: Signature)
        ensures
            r.type_signature == type_signature,
            r.volatility == volatility,
    {
        Signature { type_signature, volatility }
    }

    /// The signature that takes `arity` arguments of any type.
    pub fn any(arity: usize, volatility: Volatility) -> (r: Signature)
        ensures
            r.type_signature@ == Seq::new(arity as nat, |i: int| TypeSlot::Any),
            r.volatility == volatility,
    {
        Signature { type_signature: TypeSignature::any(arity), volatility }
    }

    /// The signature that takes exactly the types `types`, in this order.
    pub fn exact(types: &[DataType], volatility: Volatility) -> (r: Signature)
        ensures
            r.type_signature@ == Seq::new(types@.len(), |i: int| TypeSlot::Exact(types@[i])),
            r.volatility == volatility,
    {
        Signature { type_signature: TypeSignature::exact(types), volatility }
    }

    /// Whether a call with the argument types `arg_types` fits this
    /// signature.
    pub fn accepts(&self, arg_types: &[DataType]) -> (r: bool)
        ensures
            r == slots_admit(self.type_signature@, arg_types@),
    {
        self.type_signature.accepts(arg_types)
    }
}

/// A signature of wildcards accepts exactly the calls with as many arguments
/// as it has positions, whatever their types.
pub proof fn lemma_any_admits_by_arity(arity: nat, types: Seq<DataType>)
    ensures
        slots_admit(Seq::new(arity, |i: int| TypeSlot::Any), types) <==> types.len() == arity,
{
}

/// A signature of exact types accepts exactly the call with these types.
pub proof fn lemma_exact_admits_itself_only(expected: Seq<DataType>, types: Seq<DataType>)
    ensures
        slots_admit(Seq::new(expected.len(), |i: int| TypeSlot::Exact(expected[i])), types)
            <==> types == expected,
{
    let slots = Seq::new(expected.len(), |i: int| TypeSlot::Exact(expected[i]));
    if slots_admit(slots, types) {
        assert forall|i: int| 0 <= i < expected.len() implies expected[i] == types[i] by {
            assert(slots[i].admits(types[i]));
        }
        assert(types =~= expected);
    }
}

} // verus!
