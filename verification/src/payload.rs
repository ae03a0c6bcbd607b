//! Finalizing a response payload for the boundary.
//!
//! The host reads every response as a null-terminated byte buffer. The
//! encoded response — or, when encoding itself failed, a fixed minimal
//! error payload — is closed with one terminating null byte here; the
//! embedding layer then copies the bytes into a buffer it allocates.

use vstd::prelude::*;
use vstd::string::StrSliceExecFns;
use vstd::string::StringSliceAdditionalSpecFns;

verus! {

/// The fixed payload reported when a response could not be encoded.
pub open spec fn fallback_payload() -> Seq<u8> {
    "{\"error\": \"JSON error\"}".spec_bytes()
}

/// Closes an encoded response with the terminating null byte the host
/// expects, falling back to the fixed minimal error payload when no
/// encoded response exists.
pub fn finalize_payload(encoded: Option<Vec<u8>>) -> (out: Vec<u8>)
    ensures
        out@.len() >= 1,
        out@.last() == 0u8,
        match encoded {
            Option::Some(v) => out@ == v@.push(0u8),
            Option::None => out@ == fallback_payload().push(0u8),
        },
{
    match encoded {
        Option::Some(v) => {
            let mut v = v;
            v.push(0u8);
            v
        },
        Option::None => {
            let s: &str = "{\"error\": \"JSON error\"}";
            let mut v = s.as_bytes_vec();
            v.push(0u8);
            v
        },
    }
}

} // verus!
