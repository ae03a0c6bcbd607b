//! The thread-affinity rule.
//!
//! A connection's execution context may only be driven by the thread
//! that created it. The check is a pure comparison of the recorded
//! owning-thread identity with the identity of the calling thread; on a
//! mismatch it produces a description naming both.

use vstd::prelude::*;

use crate::decimal::dec_rep;
use crate::decimal::usize_to_decimal;

verus! {

/// The text reported when an operation arrives on the wrong thread: it
/// names the offending thread and the required thread, in that order.
pub open spec fn affinity_error_text(current: nat, owner: nat) -> Seq<char> {
    "Invalid thread, id: ["@ + dec_rep(current)
        + "], database operations on this connection can only be performed on thread, id: ["@
        + dec_rep(owner) + "]"@
}

/// Compares the thread that created a connection with the thread now
/// calling. Equal identities pass; unequal identities fail with a
/// description naming both, and the operation must not proceed.
pub fn check_thread(conn_thread: usize, current_thread: usize) -> (r: Option<String>)
    ensures
        r is None <==> current_thread == conn_thread,
        r matches Some(m) ==> m@ == affinity_error_text(
            current_thread as nat,
            conn_thread as nat,
        ) && m@.len() >= 1,
{
    if conn_thread != current_thread {
        let cur = usize_to_decimal(current_thread);
        let own = usize_to_decimal(conn_thread);
        let mut s = "Invalid thread, id: [".to_owned();
        s.append(cur.as_str());
        s.append(
            "], database operations on this connection can only be performed on thread, id: [",
        );
        s.append(own.as_str());
        s.append("]");
        proof {
            reveal_strlit("Invalid thread, id: [");
            assert(s@ =~= affinity_error_text(current_thread as nat, conn_thread as nat));
        }
        Some(s)
    } else {
        None
    }
}

} // verus!
