//! Error envelopes and handle resolution for the boundary operations.
//!
//! Each function here builds the exact response that one failure branch
//! of an operation reports, or resolves a handle text to the address it
//! denotes. The embedding layer decodes a request, calls these to decide
//! and describe the outcome, and encodes whatever they return.

use vstd::prelude::*;

use crate::decimal::parse_error_text;
use crate::decimal::parse_failure;
use crate::decimal::parse_usize;
use crate::decimal::parses_to;
use crate::envelope::CloseOptions;
use crate::envelope::CloseResult;
use crate::envelope::ConnectResult;
use crate::envelope::QueryOptions;
use crate::envelope::QueryResult;

verus! {

fn wrap_cause(prefix: &'static str, cause: &str) -> (s: String)
    ensures
        s@ == prefix@ + cause@ + "]"@,
{
    let mut s = prefix.to_owned();
    s.append(cause);
    s.append("]");
    proof {
        assert(s@ =~= prefix@ + cause@ + "]"@);
    }
    s
}

fn wrap_value_cause(prefix: &'static str, value: &str, cause: &str) -> (s: String)
    ensures
        s@ == prefix@ + value@ + "], message: ["@ + cause@ + "]"@,
{
    let mut s = prefix.to_owned();
    s.append(value);
    s.append("], message: [");
    s.append(cause);
    s.append("]");
    proof {
        assert(s@ =~= prefix@ + value@ + "], message: ["@ + cause@ + "]"@);
    }
    s
}

/// The open response when the request payload cannot be decoded.
pub open spec fn open_options_error_text(cause: Seq<char>) -> Seq<char> {
    "MSSQL database connection error, cannot parse specified options, message: ["@ + cause + "]"@
}

/// The open response when no execution context can be created.
pub open spec fn open_runtime_error_text(cause: Seq<char>) -> Seq<char> {
    "MSSQL database connection error, cannot create IO runtime, message: ["@ + cause + "]"@
}

/// The open response when connecting or authenticating fails.
pub open spec fn open_connect_error_text(cause: Seq<char>) -> Seq<char> {
    "MSSQL database connection error, message: ["@ + cause + "]"@
}

/// The close response when the request payload cannot be decoded.
pub open spec fn close_options_error_text(cause: Seq<char>) -> Seq<char> {
    "MSSQL connection close error, cannot parse specified options, message: ["@ + cause + "]"@
}

/// The close response when the handle text is not a number.
pub open spec fn close_handle_error_text(handle: Seq<char>) -> Seq<char> {
    "MSSQL connection close error, cannot parse specified handle, value: ["@ + handle
        + "], message: ["@ + parse_error_text(parse_failure(handle)) + "]"@
}

/// The query response when the request payload cannot be decoded.
pub open spec fn query_options_error_text(cause: Seq<char>) -> Seq<char> {
    "MSSQL query error, cannot parse specified options, message: ["@ + cause + "]"@
}

/// The query response when the handle text is not a number.
pub open spec fn query_handle_error_text(handle: Seq<char>) -> Seq<char> {
    "MSSQL query error, cannot parse specified handle, value: ["@ + handle + "], message: ["@
        + parse_error_text(parse_failure(handle)) + "]"@
}

/// The query response when running the query or reading its results fails.
pub open spec fn query_run_error_text(cause: Seq<char>) -> Seq<char> {
    "MSSQL query error, message ["@ + cause + "]"@
}

/// The open response for an undecodable request: no handle, an error
/// naming the decode failure.
pub fn open_options_error(cause: &str) -> (r: ConnectResult)
    ensures
        r.handle@.len() == 0,
        r.error@ == open_options_error_text(cause@),
        r.error@.len() >= 1,
{
    proof {
        reveal_strlit("MSSQL database connection error, cannot parse specified options, message: [");
    }
    ConnectResult::new_error(
        wrap_cause(
            "MSSQL database connection error, cannot parse specified options, message: [",
            cause,
        ),
    )
}

/// The open response when the dedicated execution context cannot be
/// built: no handle, an error naming the cause.
pub fn open_runtime_error(cause: &str) -> (r: ConnectResult)
    ensures
        r.handle@.len() == 0,
        r.error@ == open_runtime_error_text(cause@),
        r.error@.len() >= 1,
{
    proof {
        reveal_strlit("MSSQL database connection error, cannot create IO runtime, message: [");
    }
    ConnectResult::new_error(
        wrap_cause("MSSQL database connection error, cannot create IO runtime, message: [", cause),
    )
}

/// The open response when the network connection or the authentication
/// handshake fails: no handle, an error naming the cause.
pub fn open_connect_error(cause: &str) -> (r: ConnectResult)
    ensures
        r.handle@.len() == 0,
        r.error@ == open_connect_error_text(cause@),
        r.error@.len() >= 1,
{
    proof {
        reveal_strlit("MSSQL database connection error, message: [");
    }
    ConnectResult::new_error(
        wrap_cause("MSSQL database connection error, message: [", cause),
    )
}

/// The close response for an undecodable request.
pub fn close_options_error(cause: &str) -> (r: CloseResult)
    ensures
        r.error@ == close_options_error_text(cause@),
        r.error@.len() >= 1,
{
    proof {
        reveal_strlit("MSSQL connection close error, cannot parse specified options, message: [");
    }
    CloseResult::new_error(
        wrap_cause(
            "MSSQL connection close error, cannot parse specified options, message: [",
            cause,
        ),
    )
}

/// The query response for an undecodable request.
pub fn query_options_error(cause: &str) -> (r: QueryResult)
    ensures
        r.metadata@.len() == 0,
        r.data@.len() == 0,
        r.error@ == query_options_error_text(cause@),
        r.error@.len() >= 1,
{
    proof {
        reveal_strlit("MSSQL query error, cannot parse specified options, message: [");
    }
    QueryResult::new_error(
        wrap_cause("MSSQL query error, cannot parse specified options, message: [", cause),
    )
}

/// The query response when the query cannot be run to completion.
pub fn query_run_error(cause: &str) -> (r: QueryResult)
    ensures
        r.metadata@.len() == 0,
        r.data@.len() == 0,
        r.error@ == query_run_error_text(cause@),
        r.error@.len() >= 1,
{
    proof {
        reveal_strlit("MSSQL query error, message [");
    }
    QueryResult::new_error(wrap_cause("MSSQL query error, message [", cause))
}

/// Reads the address a close request's handle denotes. Exactly the handle
/// texts that denote a machine-word number are accepted; any other text
/// is answered with the close error envelope naming the text and the way
/// it failed to parse.
pub fn resolve_close_handle(opts: &CloseOptions) -> (r: Result<usize, CloseResult>)
    ensures
        (forall|n: nat| parses_to(opts.connHandle@, n) ==> r == Ok::<usize, CloseResult>(
            n as usize,
        )),
        (r matches Ok(n) ==> parses_to(opts.connHandle@, n as nat)),
        (r matches Err(c) ==> !(exists|n: nat| parses_to(opts.connHandle@, n)) && c.error@
            == close_handle_error_text(opts.connHandle@) && c.error@.len() >= 1),
{
    proof {
        reveal_strlit("MSSQL connection close error, cannot parse specified handle, value: [");
    }
    let handle: &str = opts.connHandle.as_str();
    match parse_usize(handle) {
        Ok(n) => Ok(n),
        Err(e) => {
            let m = e.message();
            Err(
                CloseResult::new_error(
                    wrap_value_cause(
                        "MSSQL connection close error, cannot parse specified handle, value: [",
                        handle,
                        m.as_str(),
                    ),
                ),
            )
        },
    }
}

/// Reads the address a query request's handle denotes, answering any
/// unusable handle text with the query error envelope.
pub fn resolve_query_handle(opts: &QueryOptions) -> (r: Result<usize, QueryResult>)
    ensures
        (forall|n: nat| parses_to(opts.connHandle@, n) ==> r == Ok::<usize, QueryResult>(
            n as usize,
        )),
        (r matches Ok(n) ==> parses_to(opts.connHandle@, n as nat)),
        (r matches Err(q) ==> !(exists|n: nat| parses_to(opts.connHandle@, n)) && q.error@
            == query_handle_error_text(opts.connHandle@) && q.error@.len() >= 1 && q.metadata@.len()
            == 0 && q.data@.len() == 0),
{
    proof {
        reveal_strlit("MSSQL query error, cannot parse specified handle, value: [");
    }
    let handle: &str = opts.connHandle.as_str();
    match parse_usize(handle) {
        Ok(n) => Ok(n),
        Err(e) => {
            let m = e.message();
            Err(
                QueryResult::new_error(
                    wrap_value_cause(
                        "MSSQL query error, cannot parse specified handle, value: [",
                        handle,
                        m.as_str(),
                    ),
                ),
            )
        },
    }
}

} // verus!
