use query_in_loop::text::str_contains;
use query_in_loop::text::str_eq;

#[test]
fn equal_strings_are_equal() {
    assert!(str_eq("fetch_all", "fetch_all"));
    assert!(str_eq("", ""));
}

#[test]
fn different_strings_are_not_equal() {
    assert!(!str_eq("fetch_all", "fetch_one"));
    assert!(!str_eq("fetch", "fetch_all"));
    assert!(!str_eq("fetch_all", ""));
}

#[test]
fn string_equality_is_case_sensitive() {
    assert!(!str_eq("Query", "query"));
}

#[test]
fn substring_is_found_anywhere() {
    assert!(str_contains("sqlx::Pool<Postgres>", "sqlx::"));
    assert!(str_contains("sqlx::Pool<Postgres>", "Pool"));
    assert!(str_contains("sqlx::Pool<Postgres>", "Postgres>"));
    assert!(str_contains("abc", "abc"));
}

#[test]
fn missing_substring_is_not_found() {
    assert!(!str_contains("MyLocalCache", "Pool"));
    assert!(!str_contains("abc", "abd"));
    assert!(!str_contains("pool", "Pool"));
}

#[test]
fn needle_longer_than_hay_is_not_found() {
    assert!(!str_contains("ab", "abc"));
    assert!(!str_contains("", "a"));
}

#[test]
fn empty_needle_is_found_in_everything() {
    assert!(str_contains("", ""));
    assert!(str_contains("abc", ""));
}

#[test]
fn repeated_prefixes_do_not_confuse_the_search() {
    assert!(str_contains("aaab", "aab"));
    assert!(!str_contains("aaa", "aab"));
}
