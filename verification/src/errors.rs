//! Error kinds for responses that the service sent but the pipeline
//! cannot decode.

use vstd::prelude::*;

verus! {

/// Why a response body could not be decoded.
#[derive(Clone, Copy, Debug, PartialEq, Eq, Structural)]
pub enum DecodeError {
    /// The unread-entries response is not a JSON array of integers.
    UnreadList,
    /// The entry response is not a JSON object with `id`, `published`
    /// and `url` fields of the expected kinds.
    EntryShape,
    /// The entry's `published` field is not a valid RFC 3339 timestamp.
    PublishedTimestamp,
}

} // verus!
