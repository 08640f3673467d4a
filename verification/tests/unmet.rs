use std::cmp::Ordering;

use oma::unmet::{
    break_applies, dep_unmet, parse_comp_symbol, unmet_for_breaks, unmet_for_depends,
    CompSymbol, WhyUnmet,
};

#[test]
fn parse_comp_symbol_accepts_all_seven() {
    assert_eq!(parse_comp_symbol(">="), Some(CompSymbol::GreaterOrEqual));
    assert_eq!(parse_comp_symbol(">>"), Some(CompSymbol::StrictlyGreater));
    assert_eq!(parse_comp_symbol(">"), Some(CompSymbol::Greater));
    assert_eq!(parse_comp_symbol("="), Some(CompSymbol::Exact));
    assert_eq!(parse_comp_symbol("<="), Some(CompSymbol::LessOrEqual));
    assert_eq!(parse_comp_symbol("<<"), Some(CompSymbol::StrictlyLess));
    assert_eq!(parse_comp_symbol("<"), Some(CompSymbol::Less));
}

#[test]
fn parse_comp_symbol_rejects_everything_else() {
    assert_eq!(parse_comp_symbol(""), None);
    assert_eq!(parse_comp_symbol("=="), None);
    assert_eq!(parse_comp_symbol("~>"), None);
    assert_eq!(parse_comp_symbol(">=="), None);
}

#[test]
fn dep_unmet_ge_needs_higher_version() {
    // Requiring >= 2.36-4 while installing 2.36-2: needed > candidate.
    assert!(dep_unmet(CompSymbol::GreaterOrEqual, Ordering::Greater));
    assert!(!dep_unmet(CompSymbol::GreaterOrEqual, Ordering::Equal));
    assert!(!dep_unmet(CompSymbol::GreaterOrEqual, Ordering::Less));
}

#[test]
fn dep_unmet_exact_needs_exact_version() {
    assert!(!dep_unmet(CompSymbol::Exact, Ordering::Equal));
    assert!(dep_unmet(CompSymbol::Exact, Ordering::Less));
    assert!(dep_unmet(CompSymbol::Exact, Ordering::Greater));
}

#[test]
fn dep_unmet_le_needs_lower_version() {
    // Requiring <= 2.36-4 while installing 2.36-6: needed < candidate.
    assert!(dep_unmet(CompSymbol::LessOrEqual, Ordering::Less));
    assert!(!dep_unmet(CompSymbol::LessOrEqual, Ordering::Equal));
    assert!(!dep_unmet(CompSymbol::LessOrEqual, Ordering::Greater));
}

#[test]
fn dep_unmet_strict_forms() {
    assert!(dep_unmet(CompSymbol::StrictlyGreater, Ordering::Equal));
    assert!(!dep_unmet(CompSymbol::StrictlyGreater, Ordering::Less));
    assert!(dep_unmet(CompSymbol::StrictlyLess, Ordering::Equal));
    assert!(!dep_unmet(CompSymbol::StrictlyLess, Ordering::Greater));
}

#[test]
fn break_applies_tables() {
    // a breaks b >= 1.0: satisfied only when the bound is above the candidate.
    assert!(!break_applies(CompSymbol::GreaterOrEqual, Ordering::Greater));
    assert!(break_applies(CompSymbol::GreaterOrEqual, Ordering::Equal));
    assert!(break_applies(CompSymbol::GreaterOrEqual, Ordering::Less));
    assert!(break_applies(CompSymbol::StrictlyGreater, Ordering::Less));
    assert!(!break_applies(CompSymbol::StrictlyGreater, Ordering::Equal));
    assert!(break_applies(CompSymbol::Exact, Ordering::Equal));
    assert!(!break_applies(CompSymbol::LessOrEqual, Ordering::Less));
    assert!(break_applies(CompSymbol::StrictlyLess, Ordering::Greater));
}

#[test]
fn unmet_for_depends_builds_the_report() {
    let u = unmet_for_depends(
        "libc6",
        "2.36-4",
        CompSymbol::GreaterOrEqual,
        Ordering::Greater,
        "coreutils",
        "2.36-2",
    )
    .unwrap();
    assert_eq!(u.package, "libc6");
    assert_eq!(u.specified_dependency, "coreutils 2.36-2");
    match u.unmet_dependency {
        WhyUnmet::Unmet { dep_name, need_ver, symbol } => {
            assert_eq!(dep_name, "coreutils");
            assert_eq!(need_ver, "2.36-4");
            assert_eq!(symbol, ">=");
        },
        other => panic!("unexpected report: {other:?}"),
    }
}

#[test]
fn unmet_for_depends_is_silent_when_met() {
    let u = unmet_for_depends(
        "libc6",
        "2.36-4",
        CompSymbol::GreaterOrEqual,
        Ordering::Less,
        "coreutils",
        "2.36-6",
    );
    assert!(u.is_none());
}

#[test]
fn unmet_for_breaks_without_bound_always_applies() {
    let u = unmet_for_breaks(
        "old-tool",
        "Breaks",
        "old-tool",
        &None,
        None,
        "new-tool",
        "2.0",
    )
    .unwrap();
    assert_eq!(u.package, "old-tool");
    match u.unmet_dependency {
        WhyUnmet::Breaks { break_type, dep_name, comp_ver } => {
            assert_eq!(break_type, "Breaks");
            assert_eq!(dep_name, "old-tool");
            assert_eq!(comp_ver, None);
        },
        other => panic!("unexpected report: {other:?}"),
    }
}

#[test]
fn unmet_for_breaks_with_bound_follows_the_table() {
    let applies = unmet_for_breaks(
        "b",
        "Conflicts",
        "b",
        &Some("<< 1.0".to_string()),
        Some((CompSymbol::StrictlyLess, Ordering::Greater)),
        "a",
        "0.9",
    );
    assert!(applies.is_some());
    let silent = unmet_for_breaks(
        "b",
        "Conflicts",
        "b",
        &Some("<< 1.0".to_string()),
        Some((CompSymbol::StrictlyLess, Ordering::Less)),
        "a",
        "2.0",
    );
    assert!(silent.is_none());
}
