//! The rate gate: a recipient may receive while it holds fewer than
//! `MAX_RECENT_MESSAGES` messages from the trailing ten minutes.

use vstd::prelude::*;

verus! {

/// Messages an account may have received in the trailing ten minutes
/// before further deliveries are refused.
pub const MAX_RECENT_MESSAGES: i64 = 100;

/// Whether a recent-message count allows a delivery; a failed count query
/// (`None`) denies.
pub open spec fn allows(recent: Option<i64>) -> bool {
    match recent {
        Some(k) => k < MAX_RECENT_MESSAGES,
        None => false,
    }
}

/// Decides a delivery from the count of the recipient's messages in the
/// trailing ten minutes, `None` where the count query failed.
pub fn check_rate_limit(recent: Option<i64>) -> (r: bool)
    ensures
        r == allows(recent),
{
    match recent {
        Some(k) => k < MAX_RECENT_MESSAGES,
        None => false,
    }
}

} // verus!
