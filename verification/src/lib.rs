//! Maintenance client core for a feed-reading service's unread queue.
//!
//! The library holds the verified pipeline: parsing the service's
//! responses, classifying entries as stale, capping the batch, and
//! building the request that marks stale entries as read.

use vstd::prelude::*;

pub mod auth;
pub mod entries;
pub mod errors;
pub mod marker;
pub mod unread;

verus! {

/// Number of seconds in the 30-day staleness threshold.
pub const STALE_THRESHOLD_SECONDS: i64 = 2592000;

/// At most this many unread entries are fetched and evaluated per run.
pub const FETCH_CAP: usize = 50;

/// An entry published strictly earlier than `now - 30 days` is stale.
pub open spec fn is_stale(published: i64, now: i64) -> bool {
    (published as int) < (now as int) - (STALE_THRESHOLD_SECONDS as int)
}

/// Decides staleness of a publish time against the current time,
/// both as seconds since the Unix epoch.
pub fn check_stale(published: i64, now: i64) -> (r: bool)
    ensures
        r == is_stale(published, now),
{
    (published as i128) < (now as i128) - (STALE_THRESHOLD_SECONDS as i128)
}

} // verus!
