//! The functions of the Trino dialect.
use vstd::prelude::*;
use vstd::string::StringExecFns;
use crate::facade::{FacadeView, FunctionFacade, overload_views};
use crate::overload::{OverloadImpl, OverloadKind};

pub mod dow_impl;
pub mod month_impl;
pub mod none_match_impl;
pub mod to_hex_impl;

verus! {

/// The function with the name `name` and the overloads of `kinds`, each as
/// it is declared, in this order.
pub open spec fn declared_facade(name: Seq<char>, kinds: Seq<OverloadKind>) -> FacadeView {
    FacadeView { name, overloads: Seq::new(kinds.len(), |i: int| kinds[i].declared()) }
}

/// The function `dow`.
pub open spec fn dow_facade() -> FacadeView {
    declared_facade("dow"@, seq![OverloadKind::DowDate, OverloadKind::DowTimestampP])
}

/// The function `month`.
pub open spec fn month_facade() -> FacadeView {
    declared_facade(
        "month"@,
        seq![
            OverloadKind::MonthDate,
            OverloadKind::MonthIntervalYearToMonth,
            OverloadKind::MonthTimestampP,
        ],
    )
}

/// The function `none_match`.
pub open spec fn none_match_facade() -> FacadeView {
    declared_facade("none_match"@, seq![OverloadKind::NoneMatch])
}

/// The function `to_hex`.
pub open spec fn to_hex_facade() -> FacadeView {
    declared_facade("to_hex"@, seq![OverloadKind::ToHexVarbinary])
}

/// The name of `function` in the dialect `dialect`: the two names with two
/// colons between them.
pub open spec fn qualified(dialect: Seq<char>, function: Seq<char>) -> Seq<char> {
    dialect + "::"@ + function
}

/// The functions of the dialect under their qualified names, where the
/// dialect is enabled; nothing where it is not.
pub open spec fn trino_functions(enabled: bool) -> Seq<(Seq<char>, FacadeView)> {
    if enabled {
        seq![
            (qualified("trino"@, "dow"@), dow_facade()),
            (qualified("trino"@, "month"@), month_facade()),
            (qualified("trino"@, "none_match"@), none_match_facade()),
            (qualified("trino"@, "to_hex"@), to_hex_facade()),
        ]
    } else {
        Seq::empty()
    }
}

/// The mathematical values of a list of functions under their names.
pub open spec fn function_views(entries: Seq<(String, FunctionFacade)>) -> Seq<
    (Seq<char>, FacadeView),
> {
    Seq::new(entries.len(), |i: int| (entries[i].0@, entries[i].1@))
}

/// The name of `function` in the dialect `dialect`.
pub fn qualified_name(dialect: &str, function: &str) -> (r: String)
    ensures
        r@ == qualified(dialect@, function@),
{
    let mut name = String::from_str(dialect);
    name.append("::");
    name.append(function);
    name
}

/// The function `dow`, with its two overloads.
pub fn dow() -> (r: FunctionFacade)
    ensures
        r@ == dow_facade(),
{
    let mut overloads: Vec<OverloadImpl> = Vec::new();
    overloads.push(OverloadImpl::new(OverloadKind::DowDate));
    overloads.push(OverloadImpl::new(OverloadKind::DowTimestampP));
    proof {
        assert(overload_views(overloads@) =~= dow_facade().overloads);
    }
    FunctionFacade::new("dow", overloads)
}

/// The function `month`, with its three overloads.
pub fn month() -> (r: FunctionFacade)
    ensures
        r@ == month_facade(),
{
    let mut overloads: Vec<OverloadImpl> = Vec::new();
    overloads.push(OverloadImpl::new(OverloadKind::MonthDate));
    overloads.push(OverloadImpl::new(OverloadKind::MonthIntervalYearToMonth));
    overloads.push(OverloadImpl::new(OverloadKind::MonthTimestampP));
    proof {
        assert(overload_views(overloads@) =~= month_facade().overloads);
    }
    FunctionFacade::new("month", overloads)
}

/// The function `none_match`, with its one overload.
pub fn none_match() -> (r: FunctionFacade)
    ensures
        r@ == none_match_facade(),
{
    let mut overloads: Vec<OverloadImpl> = Vec::new();
    overloads.push(OverloadImpl::new(OverloadKind::NoneMatch));
    proof {
        assert(overload_views(overloads@) =~= none_match_facade().overloads);
    }
    FunctionFacade::new("none_match", overloads)
}

/// The function `to_hex`, with its one overload.
pub fn to_hex() -> (r: FunctionFacade)
    ensures
        r@ == to_hex_facade(),
{
    let mut overloads: Vec<OverloadImpl> = Vec::new();
    overloads.push(OverloadImpl::new(OverloadKind::ToHexVarbinary));
    proof {
        assert(overload_views(overloads@) =~= to_hex_facade().overloads);
    }
    FunctionFacade::new("to_hex", overloads)
}

/// All functions of the dialect, each under its qualified name, for
/// installation into the catalog of a query engine.
///
/// Where the dialect is not enabled the list is empty: a disabled dialect
/// registers nothing and is no error.
pub fn functions(enabled: bool) -> (r: Vec<(String, FunctionFacade)>)
    ensures
        function_views(r@) == trino_functions(enabled),
        !enabled ==> r@.len() == 0,
{
    let mut entries: Vec<(String, FunctionFacade)> = Vec::new();
    if enabled {
        entries.push((qualified_name("trino", "dow"), dow()));
        entries.push((qualified_name("trino", "month"), month()));
        entries.push((qualified_name("trino", "none_match"), none_match()));
        entries.push((qualified_name("trino", "to_hex"), to_hex()));
    }
    proof {
        assert(function_views(entries@) =~= trino_functions(enabled));
    }
    entries
}

} // verus!
