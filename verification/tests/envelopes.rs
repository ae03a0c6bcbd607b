use mssql_bridge::affinity::check_thread;
use mssql_bridge::boundary::close_options_error;
use mssql_bridge::boundary::open_connect_error;
use mssql_bridge::boundary::open_options_error;
use mssql_bridge::boundary::open_runtime_error;
use mssql_bridge::boundary::query_options_error;
use mssql_bridge::boundary::query_run_error;
use mssql_bridge::envelope::CloseResult;
use mssql_bridge::envelope::ConnectResult;
use mssql_bridge::envelope::QueryResult;

#[test]
fn successful_open_reports_handle_and_no_error() {
    let r = ConnectResult::new(140234);
    assert_eq!(r.handle, "140234");
    assert_eq!(r.error, "");
}

#[test]
fn failed_open_reports_error_and_no_handle() {
    let r = ConnectResult::new_error("boom".to_string());
    assert_eq!(r.handle, "");
    assert_eq!(r.error, "boom");
}

#[test]
fn successful_close_reports_no_error() {
    assert_eq!(CloseResult::new().error, "");
}

#[test]
fn failed_close_reports_error() {
    assert_eq!(CloseResult::new_error("bad".to_string()).error, "bad");
}

#[test]
fn successful_query_keeps_names_and_rows() {
    let q = QueryResult::new(
        vec!["x".to_string()],
        vec![vec!["1".to_string()]],
    );
    assert_eq!(q.error, "");
    assert_eq!(q.metadata, vec!["x".to_string()]);
    assert_eq!(q.data, vec![vec!["1".to_string()]]);
}

#[test]
fn failed_query_is_empty_but_for_the_error() {
    let q = QueryResult::new_error("bad".to_string());
    assert_eq!(q.error, "bad");
    assert!(q.metadata.is_empty());
    assert!(q.data.is_empty());
}

#[test]
fn open_decode_failure_text() {
    let r = open_options_error("missing field `host`");
    assert_eq!(r.handle, "");
    assert_eq!(
        r.error,
        "MSSQL database connection error, cannot parse specified options, \
         message: [missing field `host`]"
    );
}

#[test]
fn open_runtime_failure_text() {
    let r = open_runtime_error("no reactor");
    assert_eq!(r.handle, "");
    assert_eq!(
        r.error,
        "MSSQL database connection error, cannot create IO runtime, message: [no reactor]"
    );
}

#[test]
fn open_connect_failure_names_the_connection_and_the_cause() {
    let r = open_connect_error("Login failed for user 'sa'");
    assert_eq!(r.handle, "");
    assert_eq!(
        r.error,
        "MSSQL database connection error, message: [Login failed for user 'sa']"
    );
    assert!(r.error.contains("connection"));
    assert!(r.error.contains("Login failed for user 'sa'"));
}

#[test]
fn close_decode_failure_text() {
    let r = close_options_error("expected value");
    assert_eq!(
        r.error,
        "MSSQL connection close error, cannot parse specified options, \
         message: [expected value]"
    );
}

#[test]
fn query_decode_failure_text() {
    let q = query_options_error("wrong type");
    assert_eq!(
        q.error,
        "MSSQL query error, cannot parse specified options, message: [wrong type]"
    );
    assert!(q.metadata.is_empty());
    assert!(q.data.is_empty());
}

#[test]
fn query_run_failure_text() {
    let q = query_run_error("Invalid object name 'missing'");
    assert_eq!(
        q.error,
        "MSSQL query error, message [Invalid object name 'missing']"
    );
    assert!(q.metadata.is_empty());
    assert!(q.data.is_empty());
}

#[test]
fn matching_threads_pass_the_affinity_check() {
    assert!(check_thread(5, 5).is_none());
}

#[test]
fn mismatched_threads_fail_with_both_identities_named() {
    let m = check_thread(7, 9).expect("must fail");
    assert_eq!(
        m,
        "Invalid thread, id: [9], database operations on this connection \
         can only be performed on thread, id: [7]"
    );
    assert!(m.contains("[9]"));
    assert!(m.contains("[7]"));
}
