//! Unmet-dependency reports.
//!
//! The package cache and the version comparison live in the package
//! engine; this module holds the verified decisions: given the comparison
//! symbol a dependency carries and how the needed version compares to the
//! candidate, is the dependency unmet, does a break apply, and how is the
//! report worded.

use vstd::prelude::*;

use core::cmp::Ordering;

use crate::strutil::{clone_opt_string, str_eq};

verus! {

/// One dependency a requested change cannot satisfy.
#[derive(Debug)]
pub struct UnmetDep {
    /// The package whose dependency is unmet.
    pub package: String,
    /// Why it is unmet.
    pub unmet_dependency: WhyUnmet,
    /// The package and version that stated the requirement.
    pub specified_dependency: String,
}

/// Why a dependency is unmet.
#[derive(Debug)]
pub enum WhyUnmet {
    /// The depended-on package does not exist at all.
    DepNotExist(String),
    /// A versioned requirement fails: `dep_name` needs `need_ver` under
    /// `symbol`.
    Unmet { dep_name: String, need_ver: String, symbol: String },
    /// An installed package breaks or conflicts with the candidate.
    Breaks { break_type: String, dep_name: String, comp_ver: Option<String> },
}

/// The version-comparison symbols a Debian dependency may carry.
#[derive(Debug, Clone, Copy, PartialEq, Eq, Structural)]
pub enum CompSymbol {
    /// `>=`
    GreaterOrEqual,
    /// `>>`
    StrictlyGreater,
    /// `>`
    Greater,
    /// `=`
    Exact,
    /// `<=`
    LessOrEqual,
    /// `<<`
    StrictlyLess,
    /// `<`
    Less,
}

/// The symbol written as `s`, or `None` for anything else.
pub open spec fn parse_comp_symbol_spec(s: Seq<char>) -> Option<CompSymbol> {
    if s == ">="@ {
        Some(CompSymbol::GreaterOrEqual)
    } else if s == ">>"@ {
        Some(CompSymbol::StrictlyGreater)
    } else if s == ">"@ {
        Some(CompSymbol::Greater)
    } else if s == "="@ {
        Some(CompSymbol::Exact)
    } else if s == "<="@ {
        Some(CompSymbol::LessOrEqual)
    } else if s == "<<"@ {
        Some(CompSymbol::StrictlyLess)
    } else if s == "<"@ {
        Some(CompSymbol::Less)
    } else {
        None
    }
}

/// Parses the comparison symbol of a dependency.  The package engine
/// never emits anything else; a caller that meets `None` stops as the
/// surrounding tooling always did.
pub fn parse_comp_symbol(s: &str) -> (r: Option<CompSymbol>)
    ensures
        r == parse_comp_symbol_spec(s@),
{
    if str_eq(s, ">=") {
        Some(CompSymbol::GreaterOrEqual)
    } else if str_eq(s, ">>") {
        Some(CompSymbol::StrictlyGreater)
    } else if str_eq(s, ">") {
        Some(CompSymbol::Greater)
    } else if str_eq(s, "=") {
        Some(CompSymbol::Exact)
    } else if str_eq(s, "<=") {
        Some(CompSymbol::LessOrEqual)
    } else if str_eq(s, "<<") {
        Some(CompSymbol::StrictlyLess)
    } else if str_eq(s, "<") {
        Some(CompSymbol::Less)
    } else {
        None
    }
}

/// The symbol as a dependency writes it.
pub open spec fn comp_symbol_str(s: CompSymbol) -> Seq<char> {
    match s {
        CompSymbol::GreaterOrEqual => ">="@,
        CompSymbol::StrictlyGreater => ">>"@,
        CompSymbol::Greater => ">"@,
        CompSymbol::Exact => "="@,
        CompSymbol::LessOrEqual => "<="@,
        CompSymbol::StrictlyLess => "<<"@,
        CompSymbol::Less => "<"@,
    }
}

/// Parsing a rendered symbol gives the symbol back.
pub proof fn lemma_comp_symbol_round_trip(s: CompSymbol)
    ensures
        parse_comp_symbol_spec(comp_symbol_str(s)) == Some(s),
{
    reveal_strlit(">=");
    reveal_strlit(">>");
    reveal_strlit(">");
    reveal_strlit("=");
    reveal_strlit("<=");
    reveal_strlit("<<");
    reveal_strlit("<");
    assert(">="@.len() == 2 && ">>"@.len() == 2 && ">"@.len() == 1 && "="@.len() == 1 && "<="@.len()
        == 2 && "<<"@.len() == 2 && "<"@.len() == 1);
    assert(">="@[0] == '>' && ">>"@[0] == '>' && ">"@[0] == '>' && "="@[0] == '=' && "<="@[0] == '<'
        && "<<"@[0] == '<' && "<"@[0] == '<');
    assert(">="@[1] == '=' && ">>"@[1] == '>' && "<="@[1] == '=' && "<<"@[1] == '<');
}

/// A dependency `symbol need_ver` on an installed package is unmet by the
/// candidate version, where `cmp` orders `need_ver` against the candidate.
pub open spec fn dep_unmet_spec(symbol: CompSymbol, cmp: Ordering) -> bool {
    match symbol {
        CompSymbol::GreaterOrEqual => cmp == Ordering::Greater,
        CompSymbol::StrictlyGreater => cmp != Ordering::Less,
        CompSymbol::Greater => cmp != Ordering::Less,
        CompSymbol::Exact => cmp != Ordering::Equal,
        CompSymbol::LessOrEqual => cmp == Ordering::Less,
        CompSymbol::StrictlyLess => cmp != Ordering::Greater,
        CompSymbol::Less => cmp != Ordering::Greater,
    }
}

/// Decides whether a versioned dependency is unmet.  `cmp` is how the
/// needed version compares to the candidate version.
pub fn dep_unmet(symbol: CompSymbol, cmp: Ordering) -> (r: bool)
    ensures
        r == dep_unmet_spec(symbol, cmp),
{
    match symbol {
        CompSymbol::GreaterOrEqual => matches!(cmp, Ordering::Greater),
        CompSymbol::StrictlyGreater => !matches!(cmp, Ordering::Less),
        CompSymbol::Greater => !matches!(cmp, Ordering::Less),
        CompSymbol::Exact => !matches!(cmp, Ordering::Equal),
        CompSymbol::LessOrEqual => matches!(cmp, Ordering::Less),
        CompSymbol::StrictlyLess => !matches!(cmp, Ordering::Greater),
        CompSymbol::Less => !matches!(cmp, Ordering::Greater),
    }
}

/// A break or conflict `symbol break_ver` stated by an installed package
/// applies to the candidate, where `cmp` orders `break_ver` against the
/// candidate version.
pub open spec fn break_applies_spec(symbol: CompSymbol, cmp: Ordering) -> bool {
    match symbol {
        CompSymbol::GreaterOrEqual => cmp != Ordering::Greater,
        CompSymbol::StrictlyGreater => cmp == Ordering::Less,
        CompSymbol::Greater => cmp == Ordering::Less,
        CompSymbol::Exact => cmp == Ordering::Equal,
        CompSymbol::LessOrEqual => cmp != Ordering::Less,
        CompSymbol::StrictlyLess => cmp == Ordering::Greater,
        CompSymbol::Less => cmp == Ordering::Greater,
    }
}

/// Decides whether a break or conflict applies to the candidate.  `cmp`
/// is how the broken version bound compares to the candidate version.
pub fn break_applies(symbol: CompSymbol, cmp: Ordering) -> (r: bool)
    ensures
        r == break_applies_spec(symbol, cmp),
{
    match symbol {
        CompSymbol::GreaterOrEqual => !matches!(cmp, Ordering::Greater),
        CompSymbol::StrictlyGreater => matches!(cmp, Ordering::Less),
        CompSymbol::Greater => matches!(cmp, Ordering::Less),
        CompSymbol::Exact => matches!(cmp, Ordering::Equal),
        CompSymbol::LessOrEqual => !matches!(cmp, Ordering::Less),
        CompSymbol::StrictlyLess => matches!(cmp, Ordering::Greater),
        CompSymbol::Less => matches!(cmp, Ordering::Greater),
    }
}

/// `name`, a space, and `version`: how a requirement's origin is worded.
pub open spec fn name_and_version(name: Seq<char>, version: Seq<char>) -> Seq<char> {
    name + " "@ + version
}

/// Renders `name version` for a report.
pub fn render_name_and_version(name: &str, version: &str) -> (r: String)
    ensures
        r@ == name_and_version(name@, version@),
{
    let mut out = String::new();
    out.append(name);
    out.append(" ");
    out.append(version);
    out
}

/// The report for one unmet versioned dependency of `c_name`'s candidate
/// `cand_ver`: `Some` exactly when the dependency is unmet.
pub fn unmet_for_depends(
    dep_name: &str,
    need_ver: &str,
    symbol: CompSymbol,
    cmp: Ordering,
    c_name: &str,
    cand_ver: &str,
) -> (r: Option<UnmetDep>)
    ensures
        r is Some <==> dep_unmet_spec(symbol, cmp),
        r matches Some(u) ==> {
            &&& u.package@ == dep_name@
            &&& u.unmet_dependency matches WhyUnmet::Unmet { dep_name: d, need_ver: v, symbol: sy }
                && d@ == c_name@ && v@ == need_ver@ && sy@ == comp_symbol_str(symbol)
            &&& u.specified_dependency@ == name_and_version(c_name@, cand_ver@)
        },
{
    if !dep_unmet(symbol, cmp) {
        return None;
    }
    let sy = match symbol {
        CompSymbol::GreaterOrEqual => ">=",
        CompSymbol::StrictlyGreater => ">>",
        CompSymbol::Greater => ">",
        CompSymbol::Exact => "=",
        CompSymbol::LessOrEqual => "<=",
        CompSymbol::StrictlyLess => "<<",
        CompSymbol::Less => "<",
    };
    let u = UnmetDep {
        package: String::from_str(dep_name),
        unmet_dependency: WhyUnmet::Unmet {
            dep_name: String::from_str(c_name),
            need_ver: String::from_str(need_ver),
            symbol: String::from_str(sy),
        },
        specified_dependency: render_name_and_version(c_name, cand_ver),
    };
    Some(u)
}

/// The report for one applying break or conflict: `break_type` is the
/// relation's name, `dep_name` the installed package stating it,
/// `comp_ver` its version bound as written, and `c_name`/`cand_ver` the
/// candidate it applies to.  `Some` exactly when the break applies; a
/// break without a version bound always applies.
pub fn unmet_for_breaks(
    package: &str,
    break_type: &str,
    dep_name: &str,
    comp_ver: &Option<String>,
    symbol_cmp: Option<(CompSymbol, Ordering)>,
    c_name: &str,
    cand_ver: &str,
) -> (r: Option<UnmetDep>)
    ensures
        r is Some <==> match symbol_cmp {
            Some((sy, cmp)) => break_applies_spec(sy, cmp),
            None => true,
        },
        r matches Some(u) ==> {
            &&& u.package@ == package@
            &&& u.unmet_dependency matches WhyUnmet::Breaks { break_type: b, dep_name: d, comp_ver: v }
                && b@ == break_type@ && d@ == dep_name@ && (v is Some <==> comp_ver is Some) && (
            v matches Some(vv) ==> comp_ver matches Some(cc) && vv@ == cc@)
            &&& u.specified_dependency@ == name_and_version(c_name@, cand_ver@)
        },
{
    let applies = match symbol_cmp {
        Some((sy, cmp)) => break_applies(sy, cmp),
        None => true,
    };
    if !applies {
        return None;
    }
    Some(
        UnmetDep {
            package: String::from_str(package),
            unmet_dependency: WhyUnmet::Breaks {
                break_type: String::from_str(break_type),
                dep_name: String::from_str(dep_name),
                comp_ver: clone_opt_string(comp_ver),
            },
            specified_dependency: render_name_and_version(c_name, cand_ver),
        },
    )
}

} // verus!
