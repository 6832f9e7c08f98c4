use query_in_loop::finding::emit;
use query_in_loop::finding::Severity;
use query_in_loop::rule::check_call;
use query_in_loop::rule::run_traversal;
use query_in_loop::rule::TraversalEvent;
use query_in_loop::scope::LoopScopeTracker;
use query_in_loop::site::CallSite;
use query_in_loop::site::Span;
use query_in_loop::site::TypeDescriptor;

fn call(operation: &str, receiver_type: Option<&str>) -> CallSite {
    CallSite {
        span: Span { lo: 10, hi: 42 },
        operation: String::from(operation),
        receiver_type: receiver_type.map(|text| TypeDescriptor::new(String::from(text))),
    }
}

fn tracker_inside_loop() -> LoopScopeTracker {
    let mut tracker = LoopScopeTracker::new();
    tracker.enter_loop();
    tracker
}

#[test]
fn pool_fetch_all_inside_loop_is_reported() {
    let tracker = tracker_inside_loop();
    let finding = check_call(&tracker, &call("fetch_all", Some("sqlx::Pool<Postgres>")))
        .expect("a query on a pool inside a loop must be reported");
    assert_eq!(finding.severity, Severity::Warning);
    assert_eq!(finding.span, Span { lo: 10, hi: 42 });
    assert_eq!(
        finding.message,
        "database query operation 'fetch_all' called inside a loop"
    );
    assert_eq!(
        finding.hint.as_deref(),
        Some("consider batching queries using WHERE IN clauses or collecting IDs first")
    );
}

#[test]
fn conn_fetch_all_outside_loop_is_not_reported() {
    let tracker = LoopScopeTracker::new();
    let result = check_call(&tracker, &call("fetch_all", Some("sqlx::PgConnection")));
    assert!(result.is_none());
}

#[test]
fn cache_fetch_all_inside_loop_is_not_reported() {
    let tracker = tracker_inside_loop();
    let result = check_call(&tracker, &call("fetch_all", Some("MyLocalCache")));
    assert!(result.is_none());
}

#[test]
fn pool_validate_inside_loop_is_not_reported() {
    let tracker = tracker_inside_loop();
    let result = check_call(&tracker, &call("validate", Some("sqlx::Pool<Postgres>")));
    assert!(result.is_none());
}

#[test]
fn unresolved_receiver_type_is_silently_skipped() {
    let tracker = tracker_inside_loop();
    let result = check_call(&tracker, &call("fetch_all", None));
    assert!(result.is_none());
}

#[test]
fn message_embeds_each_operation_name_verbatim() {
    let tracker = tracker_inside_loop();
    for operation in ["query", "execute", "fetch_one"] {
        let finding = check_call(&tracker, &call(operation, Some("diesel::PgConnection")))
            .expect("a query inside a loop must be reported");
        assert!(finding.message.contains(operation));
        assert_eq!(
            finding.message,
            format!("database query operation '{}' called inside a loop", operation)
        );
    }
}

#[test]
fn emit_builds_a_warning_on_the_call_site_span() {
    let site = call("execute", Some("sqlx::Pool<Postgres>"));
    let finding = emit(&site, String::from("message text"), None);
    assert_eq!(finding.severity, Severity::Warning);
    assert_eq!(finding.span, Span { lo: 10, hi: 42 });
    assert_eq!(finding.message, "message text");
    assert!(finding.hint.is_none());
}

#[test]
fn traversal_reports_only_matching_calls_inside_loops() {
    let events = vec![
        TraversalEvent::Call(call("fetch_all", Some("sqlx::Pool<Postgres>"))),
        TraversalEvent::EnterLoop,
        TraversalEvent::Call(call("fetch_all", Some("sqlx::Pool<Postgres>"))),
        TraversalEvent::Call(call("validate", Some("sqlx::Pool<Postgres>"))),
        TraversalEvent::Call(call("execute", Some("MyLocalCache"))),
        TraversalEvent::ExitLoop,
        TraversalEvent::Call(call("execute", Some("sqlx::Pool<Postgres>"))),
    ];
    let findings = run_traversal(&events).expect("the event stream is balanced");
    assert_eq!(findings.len(), 1);
    assert_eq!(
        findings[0].message,
        "database query operation 'fetch_all' called inside a loop"
    );
}

#[test]
fn traversal_reports_nested_loop_queries_in_visit_order() {
    let events = vec![
        TraversalEvent::EnterLoop,
        TraversalEvent::EnterLoop,
        TraversalEvent::Call(call("fetch_one", Some("tokio_postgres::Client"))),
        TraversalEvent::ExitLoop,
        TraversalEvent::Call(call("query", Some("rusqlite::Connection"))),
        TraversalEvent::ExitLoop,
    ];
    let findings = run_traversal(&events).expect("the event stream is balanced");
    assert_eq!(findings.len(), 2);
    assert!(findings[0].message.contains("fetch_one"));
    assert!(findings[1].message.contains("query"));
}

#[test]
fn imbalanced_traversal_aborts_the_pass() {
    let events = vec![
        TraversalEvent::EnterLoop,
        TraversalEvent::Call(call("fetch_all", Some("sqlx::Pool<Postgres>"))),
        TraversalEvent::ExitLoop,
        TraversalEvent::ExitLoop,
    ];
    assert!(run_traversal(&events).is_err());
}

#[test]
fn empty_traversal_produces_no_findings() {
    let findings = run_traversal(&Vec::new()).expect("an empty stream is balanced");
    assert!(findings.is_empty());
}
