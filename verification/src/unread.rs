//! The unread fetcher's decoding step, the hard cap on how many
//! entries one run evaluates, and the projection of stale entries to
//! the identifiers handed to the marking step.

use vstd::prelude::*;

use crate::FETCH_CAP;
use crate::entries::StaleEntry;
use crate::errors::DecodeError;

verus! {

/// The sequence of integers that a JSON array body holds, or `None`
/// when the text is not a JSON array of unsigned 64-bit integers. A
/// function of the text alone.
pub uninterp spec fn id_list_of(body: Seq<char>) -> Option<Seq<u64>>;

/// Relies on serde_json::from_str::<Vec<u64>>: parses the body as a
/// JSON array of unsigned 64-bit integers, a function of the body
/// alone.
#[verifier::external_body]
fn parse_id_list_raw(body: &str) -> (r: Option<Vec<u64>>)
    ensures
        match r {
            Some(v) => id_list_of(body@) == Some(v@),
            None => id_list_of(body@) is None,
        },
{
    serde_json::from_str::<Vec<u64>>(body).ok()
}

/// Decodes the unread-entries response into the identifiers it lists.
pub fn parse_unread_ids(body: &str) -> (r: Result<Vec<u64>, DecodeError>)
    ensures
        match r {
            Ok(v) => id_list_of(body@) == Some(v@),
            Err(e) => id_list_of(body@) is None && e == DecodeError::UnreadList,
        },
{
    match parse_id_list_raw(body) {
        Some(v) => Ok(v),
        None => Err(DecodeError::UnreadList),
    }
}

/// The prefix of the received identifiers that one run evaluates: all
/// of them when at most `FETCH_CAP` arrived, the first `FETCH_CAP`
/// otherwise.
pub open spec fn capped(ids: Seq<u64>) -> Seq<u64> {
    if ids.len() <= FETCH_CAP as int {
        ids
    } else {
        ids.take(FETCH_CAP as int)
    }
}

/// Keeps the first `FETCH_CAP` identifiers, in the order received;
/// identifiers beyond the cap are never evaluated.
pub fn ids_to_fetch(ids: &Vec<u64>) -> (r: Vec<u64>)
    ensures
        r@ == capped(ids@),
        r@.len() <= FETCH_CAP as int,
        forall|i: int| 0 <= i < r@.len() ==> r@[i] == ids@[i],
{
    let mut r: Vec<u64> = Vec::new();
    let mut i: usize = 0;
    while i < ids.len() && i < FETCH_CAP
        invariant
            i <= ids.len(),
            i <= FETCH_CAP,
            r@ == ids@.take(i as int),
        decreases ids.len() - i,
    {
        r.push(ids[i]);
        proof {
            assert(ids@.take(i as int + 1) =~= ids@.take(i as int).push(ids@[i as int]));
        }
        i = i + 1;
    }
    proof {
        if ids@.len() <= FETCH_CAP as int {
            assert(ids@.take(ids@.len() as int) =~= ids@);
        }
    }
    r
}

/// Every identifier kept for fetching stands at an index below the cap
/// in the received list, at its received position; nothing beyond that
/// prefix is ever fetched or evaluated.
pub proof fn lemma_cap_is_prefix(ids: Seq<u64>)
    ensures
        capped(ids).len() == if ids.len() <= FETCH_CAP as int {
            ids.len() as int
        } else {
            FETCH_CAP as int
        },
        forall|i: int| 0 <= i < capped(ids).len() ==> capped(ids)[i] == ids[i],
{
}

/// The identifiers that a batch of stale entries carries, in order.
pub open spec fn ids_of(stale: Seq<StaleEntry>) -> Seq<u64> {
    stale.map_values(|e: StaleEntry| e.id)
}

/// Projects the stale entries found to the identifiers to mark as read.
pub fn stale_ids(stale: &Vec<StaleEntry>) -> (r: Vec<u64>)
    ensures
        r@ == ids_of(stale@),
{
    let mut r: Vec<u64> = Vec::new();
    let mut i: usize = 0;
    while i < stale.len()
        invariant
            i <= stale.len(),
            r@.len() == i as int,
            forall|j: int| 0 <= j < i as int ==> r@[j] == stale@[j].id,
        decreases stale.len() - i,
    {
        let id: u64 = stale[i].id;
        r.push(id);
        i = i + 1;
    }
    proof {
        assert(r@ =~= ids_of(stale@));
    }
    r
}

} // verus!
