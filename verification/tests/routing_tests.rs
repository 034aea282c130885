use housedb::routing::{audit_entry, is_select_statement, route_and_log, route_statement, Route};

#[test]
fn select_in_any_case_after_whitespace_routes_to_query() {
    assert_eq!(route_statement("SELECT * FROM tbl_house_prices"), Route::Query);
    assert_eq!(route_statement("  SELECT id FROM tbl_house_prices"), Route::Query);
    assert_eq!(route_statement("\t\n select 1"), Route::Query);
    assert_eq!(route_statement(" SeLeCt MedInc FROM tbl_house_prices"), Route::Query);
}

#[test]
fn anything_else_routes_to_execute() {
    assert_eq!(route_statement("DELETE FROM tbl_house_prices WHERE id = 1"), Route::Execute);
    assert_eq!(route_statement("update tbl_house_prices SET MedInc = 1"), Route::Execute);
    assert_eq!(route_statement(""), Route::Execute);
    assert_eq!(route_statement("   "), Route::Execute);
    assert_eq!(route_statement(" sel"), Route::Execute);
}

#[test]
fn is_select_matches_the_route() {
    assert!(is_select_statement("select 1"));
    assert!(!is_select_statement("vacuum"));
}

#[test]
fn audit_entry_fences_the_literal_text() {
    assert_eq!(audit_entry("SELECT 1"), "```\nSELECT 1\n```\n");
}

#[test]
fn both_paths_append_exactly_one_audit_entry() {
    let mut log = String::new();

    let first = route_and_log("SELECT * FROM tbl_house_prices", &mut log);
    assert_eq!(first, Route::Query);
    assert_eq!(log, "```\nSELECT * FROM tbl_house_prices\n```\n");

    let second = route_and_log("DELETE FROM tbl_house_prices WHERE id = 1", &mut log);
    assert_eq!(second, Route::Execute);
    assert_eq!(
        log,
        "```\nSELECT * FROM tbl_house_prices\n```\n```\nDELETE FROM tbl_house_prices WHERE id = 1\n```\n"
    );
}
