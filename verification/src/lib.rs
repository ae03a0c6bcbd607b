//! Verified core of a foreign-call bridge that exposes a relational-database
//! client (connect, query, close) to an embedding host through serialized
//! request and response payloads and opaque numeric connection handles.
//!
//! The bridge's pure logic lives here: handle encoding and parsing, the
//! thread-affinity rule, the column-type normalization policy, result
//! materialization, response envelopes and payload finalization. The
//! network protocol driver, the payload serializer and the raw boundary
//! allocation are external collaborators driven from the embedding layer.

pub mod affinity;
pub mod boundary;
pub mod decimal;
pub mod envelope;
pub mod materialize;
pub mod normalize;
pub mod payload;
