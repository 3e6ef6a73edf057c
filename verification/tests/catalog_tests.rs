use pgview::catalog::{catalog_query, ci_eq_str, resolve_table_name, NameResolution};

fn catalog(names: &[&str]) -> Vec<String> {
    names.iter().map(|s| s.to_string()).collect()
}

#[test]
fn resolving_ignores_ascii_case() {
    let tables = catalog(&["Users", "orders"]);
    assert_eq!(
        resolve_table_name(&tables, "USERS"),
        NameResolution::Found("Users".to_string())
    );
    assert_eq!(
        resolve_table_name(&tables, "users"),
        NameResolution::Found("Users".to_string())
    );
    assert_eq!(
        resolve_table_name(&tables, "Orders"),
        NameResolution::Found("orders".to_string())
    );
}

#[test]
fn resolving_an_unknown_name_reports_not_found() {
    let tables = catalog(&["Users", "orders"]);
    assert_eq!(
        resolve_table_name(&tables, "nonexistent"),
        NameResolution::NotFound
    );
    assert_eq!(resolve_table_name(&catalog(&[]), "users"), NameResolution::NotFound);
}

#[test]
fn resolving_keeps_the_canonical_stored_name() {
    let tables = catalog(&["AcCoUnTs"]);
    assert_eq!(
        resolve_table_name(&tables, "accounts"),
        NameResolution::Found("AcCoUnTs".to_string())
    );
}

#[test]
fn resolving_two_case_variants_reports_an_inconsistency() {
    let tables = catalog(&["Users", "USERS", "orders"]);
    assert_eq!(resolve_table_name(&tables, "users"), NameResolution::Ambiguous);
}

#[test]
fn case_folding_touches_only_ascii_letters() {
    assert!(ci_eq_str("WIDGETS", "widgets"));
    assert!(ci_eq_str("a_b-1", "A_B-1"));
    assert!(!ci_eq_str("widgets", "widget"));
    assert!(!ci_eq_str("a", ""));
    // Non-ASCII characters must match exactly.
    assert!(ci_eq_str("caf\u{e9}", "CAF\u{c9}") == false);
    assert!(ci_eq_str("caf\u{e9}", "caf\u{e9}"));
}

#[test]
fn catalog_statement_lists_public_tables() {
    assert_eq!(
        catalog_query(),
        "SELECT table_name FROM information_schema.tables WHERE table_schema = 'public'"
    );
}
