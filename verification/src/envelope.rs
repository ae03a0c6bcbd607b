//! Request and response envelopes of the four boundary operations.
//!
//! Every response carries an `error` field that is the empty string
//! exactly when the operation succeeded; the payload fields (handle,
//! metadata, data) are empty whenever an error is reported.

use vstd::prelude::*;

use crate::decimal::dec_rep;
use crate::decimal::lemma_dec_rep_value;
use crate::decimal::usize_to_decimal;

verus! {

/// What the host sends to open a connection: the target server, the
/// credentials, and whether to trust the server certificate.
#[allow(non_snake_case)]
pub struct ConnectOptions {
    pub host: String,
    pub port: u16,
    pub instance: String,
    pub database: String,
    pub user: String,
    pub password: String,
    pub trustCert: bool,
}

/// What the host sends to close a connection: the handle text it was
/// given when the connection was opened.
#[allow(non_snake_case)]
pub struct CloseOptions {
    pub connHandle: String,
}

/// What the host sends to run a query: a handle and the query text.
#[allow(non_snake_case)]
pub struct QueryOptions {
    pub connHandle: String,
    pub query: String,
}

/// The response to an open request: the handle of the new connection and
/// an empty error, or an empty handle and a description of the failure.
pub struct ConnectResult {
    pub handle: String,
    pub error: String,
}

/// The response to a close request: an empty error on success, a
/// description of the failure otherwise.
pub struct CloseResult {
    pub error: String,
}

/// The response to a query request: the column names, the rows with every
/// cell reduced to text, and an empty error; or empty metadata and data
/// beside a description of the failure.
pub struct QueryResult {
    pub error: String,
    pub metadata: Vec<String>,
    pub data: Vec<Vec<String>>,
}

impl ConnectResult {
    /// A successful open: the handle is the decimal text of the
    /// connection's address, never empty, and the error is empty.
    pub fn new(handle: usize) -> (r: ConnectResult)
        ensures
            r.handle@ == dec_rep(handle as nat),
            r.handle@.len() >= 1,
            r.error@.len() == 0,
    {
        proof {
            lemma_dec_rep_value(handle as nat);
        }
        ConnectResult { handle: usize_to_decimal(handle), error: String::new() }
    }

    /// A failed open: the handle is empty and the error is the given
    /// text, which must describe the failure and so may not be empty.
    pub fn new_error(error: String) -> (r: ConnectResult)
        requires
            error@.len() >= 1,
        ensures
            r.handle@.len() == 0,
            r.error@ == error@,
            r.error@.len() >= 1,
    {
        ConnectResult { handle: String::new(), error }
    }
}

impl CloseResult {
    /// A successful close: the error is empty.
    pub fn new() -> (r: CloseResult)
        ensures
            r.error@.len() == 0,
    {
        CloseResult { error: String::new() }
    }

    /// A failed close: the error is the given text, which must describe
    /// the failure and so may not be empty.
    pub fn new_error(error: String) -> (r: CloseResult)
        requires
            error@.len() >= 1,
        ensures
            r.error@ == error@,
            r.error@.len() >= 1,
    {
        CloseResult { error }
    }
}

impl QueryResult {
    /// A successful query: the collected metadata and rows, unchanged and
    /// in order, beside an empty error.
    pub fn new(metadata: Vec<String>, data: Vec<Vec<String>>) -> (r: QueryResult)
        ensures
            r.metadata == metadata,
            r.data == data,
            r.error@.len() == 0,
    {
        QueryResult { metadata, data, error: String::new() }
    }

    /// A failed query: metadata and data are empty and the error is the
    /// given text, which must describe the failure and so may not be empty.
    pub fn new_error(error: String) -> (r: QueryResult)
        requires
            error@.len() >= 1,
        ensures
            r.metadata@.len() == 0,
            r.data@.len() == 0,
            r.error@ == error@,
            r.error@.len() >= 1,
    {
        let metadata = Vec::new();
        let data = Vec::new();
        QueryResult { metadata, data, error }
    }
}

} // verus!
