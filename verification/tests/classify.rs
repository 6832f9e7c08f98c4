use query_in_loop::classify::is_query_method;

#[test]
fn every_seeded_query_name_is_recognized() {
    assert!(is_query_method("query"));
    assert!(is_query_method("query_as"));
    assert!(is_query_method("execute"));
    assert!(is_query_method("fetch_one"));
    assert!(is_query_method("fetch_all"));
    assert!(is_query_method("fetch_optional"));
    assert!(is_query_method("prepare"));
    assert!(is_query_method("prepare_with"));
}

#[test]
fn unrelated_names_are_not_recognized() {
    assert!(!is_query_method("validate"));
    assert!(!is_query_method("fetch"));
    assert!(!is_query_method(""));
    assert!(!is_query_method("queryx"));
}

#[test]
fn operation_matching_is_exact_and_case_sensitive() {
    assert!(!is_query_method("Query"));
    assert!(!is_query_method("FETCH_ALL"));
    assert!(!is_query_method(" query"));
}
