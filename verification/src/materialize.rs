//! The row materializer: a query's result stream, in memory.
//!
//! The driver delivers a stream of items: column metadata, then rows.
//! The embedding layer drives that stream and feeds each item here; the
//! materializer records column names and normalized rows in stream
//! order and finally yields one complete query response.

use vstd::prelude::*;

use crate::envelope::QueryResult;

verus! {

/// The state of one query's materialization: the column names seen so
/// far and the normalized rows collected so far, in stream order.
pub struct Materializer {
    pub metadata: Vec<String>,
    pub data: Vec<Vec<String>>,
}

impl Materializer {
    /// Materialization starts with no names and no rows.
    pub fn new() -> (m: Materializer)
        ensures
            m.metadata@.len() == 0,
            m.data@.len() == 0,
    {
        Materializer { metadata: Vec::new(), data: Vec::new() }
    }

    /// Records the column names of a metadata item, in order, after any
    /// recorded before; the rows are untouched. A well-behaved stream
    /// delivers metadata at most once, before any row.
    pub fn add_metadata(&mut self, names: Vec<String>)
        ensures
            final(self).metadata@ == old(self).metadata@ + names@,
            final(self).data == old(self).data,
    {
        let mut names = names;
        self.metadata.append(&mut names);
    }

    /// Appends one normalized row after every row recorded before; the
    /// column names are untouched.
    pub fn push_row(&mut self, row: Vec<String>)
        ensures
            final(self).data@ == old(self).data@.push(row),
            final(self).metadata == old(self).metadata,
    {
        self.data.push(row);
    }

    /// The completed response: the recorded names and rows, unchanged
    /// and in order, with an empty error.
    pub fn finish(self) -> (q: QueryResult)
        ensures
            q.metadata == self.metadata,
            q.data == self.data,
            q.error@.len() == 0,
    {
        QueryResult::new(self.metadata, self.data)
    }
}

} // verus!
