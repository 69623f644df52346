//! The table of all functions under their qualified names.
use vstd::prelude::*;
use vstd::string::StringExecFns;
use crate::facade::{FacadeView, FunctionFacade};
use crate::trino::{function_views, functions, qualified, trino_functions};

verus! {

/// Whether no name occurs twice in `entries`.
pub open spec fn names_are_distinct(entries: Seq<(Seq<char>, FacadeView)>) -> bool {
    forall|i: int, j: int|
        0 <= i < j < entries.len() ==> (#[trigger] entries[i]).0 != (#[trigger] entries[j]).0
}

/// The function that `entries` holds under the name `name`, if any.
pub open spec fn entry_of(entries: Seq<(Seq<char>, FacadeView)>, name: Seq<char>) -> Option<
    FacadeView,
> {
    if exists|i: int| 0 <= i < entries.len() && (#[trigger] entries[i]).0 == name {
        let i = choose|i: int| 0 <= i < entries.len() && (#[trigger] entries[i]).0 == name;
        Some(entries[i].1)
    } else {
        None
    }
}

/// The functions of the enabled dialects have distinct names.
pub proof fn lemma_trino_names_are_distinct(enabled: bool)
    ensures
        names_are_distinct(trino_functions(enabled)),
{
    reveal_strlit("dow");
    reveal_strlit("month");
    reveal_strlit("none_match");
    reveal_strlit("to_hex");
    let entries = trino_functions(enabled);
    if enabled {
        assert(entries[0].0.len() == "trino"@.len() + "::"@.len() + 3);
        assert(entries[1].0.len() == "trino"@.len() + "::"@.len() + 5);
        assert(entries[2].0.len() == "trino"@.len() + "::"@.len() + 10);
        assert(entries[3].0.len() == "trino"@.len() + "::"@.len() + 6);
    }
}

/// The table of functions: each function of an enabled dialect under its
/// qualified name, and no name twice. It is built once and not changed
/// afterwards.
#[derive(Debug)]
pub struct Registry {
    entries: Vec<(String, FunctionFacade)>,
}

impl View for Registry {
    type V = Seq<(Seq<char>, FacadeView)>;

    closed spec fn view(&self) -> Seq<(Seq<char>, FacadeView)> {
        function_views(self.entries@)
    }
}

impl Registry {
    /// No name occurs twice.
    #[verifier::type_invariant]
    spec fn distinct(self) -> bool {
        names_are_distinct(function_views(self.entries@))
    }

    /// The table of the functions of the Trino dialect, where the dialect is
    /// enabled; the empty table where it is not.
    pub fn new(trino_enabled: bool) -> (r: Registry)
        ensures
            r@ == trino_functions(trino_enabled),
            names_are_distinct(r@),
    {
        let entries = functions(trino_enabled);
        proof {
            lemma_trino_names_are_distinct(trino_enabled);
        }
        Registry { entries }
    }

    /// The number of functions in the table.
    pub fn len(&self) -> (r: usize)
        ensures
            r == self@.len(),
    {
        self.entries.len()
    }

    /// Every function with its qualified name, in the order of registration.
    pub fn register_all(&self) -> (r: &[(String, FunctionFacade)])
        ensures
            function_views(r@) == self@,
            names_are_distinct(self@),
    {
        proof {
            use_type_invariant(self);
        }
        self.entries.as_slice()
    }

    /// The function registered under `qualified_name`, or `None` where the
    /// table holds no function of that name.
    pub fn lookup(&self, qualified_name: &str) -> (r: Option<&FunctionFacade>)
        ensures
            match r {
                Some(facade) => entry_of(self@, qualified_name@) == Some(facade@),
                None => entry_of(self@, qualified_name@) is None,
            },
    {
        proof {
            use_type_invariant(self);
        }
        let key = String::from_str(qualified_name);
        let ghost views = function_views(self.entries@);
        let mut i: usize = 0;
        while i < self.entries.len()
            invariant
                i <= self.entries@.len(),
                key@ == qualified_name@,
                views == function_views(self.entries@),
                names_are_distinct(views),
                forall|j: int| 0 <= j < i ==> (#[trigger] views[j]).0 != qualified_name@,
            decreases self.entries@.len() - i,
        {
            if self.entries[i].0 == key {
                proof {
                    let k = i as int;
                    assert(views[k].0 == qualified_name@);
                    let chosen = choose|c: int|
                        0 <= c < views.len() && (#[trigger] views[c]).0 == qualified_name@;
                    if chosen < k {
                        assert(views[chosen].0 != views[k].0);
                    }
                    if k < chosen {
                        assert(views[k].0 != views[chosen].0);
                    }
                }
                return Some(&self.entries[i].1);
            }
            i += 1;
        }
        None
    }
}

/// Looking a name up in a table without a repeated name finds the one
/// function that is registered under it.
pub proof fn lemma_entry_of_is_the_entry(entries: Seq<(Seq<char>, FacadeView)>, i: int)
    requires
        names_are_distinct(entries),
        0 <= i < entries.len(),
    ensures
        entry_of(entries, entries[i].0) == Some(entries[i].1),
{
    let name = entries[i].0;
    let chosen = choose|c: int| 0 <= c < entries.len() && (#[trigger] entries[c]).0 == name;
    if chosen < i {
        assert(entries[chosen].0 != entries[i].0);
    }
    if i < chosen {
        assert(entries[i].0 != entries[chosen].0);
    }
}

/// A dialect that is not enabled registers nothing: its table is empty and
/// no name is found in it.
pub proof fn lemma_disabled_registers_nothing(name: Seq<char>)
    ensures
        trino_functions(false).len() == 0,
        entry_of(trino_functions(false), name) is None,
{
}

/// The name of a function in a dialect has the form `dialect::function`.
pub proof fn lemma_qualified_name_form(dialect: Seq<char>, function: Seq<char>)
    ensures
        qualified(dialect, function).len() == dialect.len() + "::"@.len() + function.len(),
        qualified(dialect, function).subrange(0, dialect.len() as int) == dialect,
{
    assert(qualified(dialect, function).subrange(0, dialect.len() as int) =~= dialect);
}

} // verus!
