//! The age filter: decoding one entry's record and classifying it as
//! stale or fresh against the 30-day threshold.

use vstd::prelude::*;

use crate::errors::DecodeError;
use crate::is_stale;

verus! {

/// The fields of one feed entry that the pipeline reads.
#[derive(Debug, Clone, PartialEq, Eq)]
pub struct Entry {
    pub id: u64,
    pub published: String,
    pub url: String,
}

/// An unread entry found to be older than the threshold: its address
/// and its identifier, kept for the marking step.
#[derive(Debug, Clone, PartialEq, Eq)]
pub struct StaleEntry {
    pub url: String,
    pub id: u64,
}

/// The `(id, published, url)` fields that a JSON entry record holds, or
/// `None` when the text is not a JSON object carrying all three with
/// the expected kinds. A function of the text alone.
pub uninterp spec fn entry_fields_of(body: Seq<char>) -> Option<(u64, Seq<char>, Seq<char>)>;

/// The instant that an RFC 3339 timestamp denotes, in whole seconds
/// since the Unix epoch, or `None` when the text is not a valid
/// RFC 3339 timestamp. A function of the text alone.
pub uninterp spec fn rfc3339_epoch_of(s: Seq<char>) -> Option<i64>;

/// Relies on serde_json::from_str and serde_json::Value's `get`,
/// `as_u64` and `as_str`: parses the body as JSON and reads the entry's
/// `id`, `published` and `url` fields, a function of the body alone.
#[verifier::external_body]
fn parse_entry_raw(body: &str) -> (r: Option<(u64, String, String)>)
    ensures
        match r {
            Some(t) => entry_fields_of(body@) == Some((t.0, t.1@, t.2@)),
            None => entry_fields_of(body@) is None,
        },
{
    let v: serde_json::Value = match serde_json::from_str(body) {
        Ok(v) => v,
        Err(_) => return None,
    };
    let id = v.get("id")?.as_u64()?;
    let published = v.get("published")?.as_str()?.to_string();
    let url = v.get("url")?.as_str()?.to_string();
    Some((id, published, url))
}

/// Relies on chrono::DateTime::parse_from_rfc3339 and
/// chrono::DateTime::timestamp: the parsed instant as whole seconds
/// since the Unix epoch, `None` exactly when parsing fails.
#[verifier::external_body]
fn parse_rfc3339_epoch(s: &str) -> (r: Option<i64>)
    ensures
        r == rfc3339_epoch_of(s@),
{
    match chrono::DateTime::parse_from_rfc3339(s) {
        Ok(d) => Some(d.timestamp()),
        Err(_) => None,
    }
}

/// Decodes one entry record, keeping the three fields the pipeline reads.
pub fn parse_entry(body: &str) -> (r: Result<Entry, DecodeError>)
    ensures
        match r {
            Ok(e) => entry_fields_of(body@) == Some((e.id, e.published@, e.url@)),
            Err(e) => entry_fields_of(body@) is None && e == DecodeError::EntryShape,
        },
{
    match parse_entry_raw(body) {
        Some(t) => Ok(Entry { id: t.0, published: t.1, url: t.2 }),
        None => Err(DecodeError::EntryShape),
    }
}

/// What classifying an entry body at time `now` must yield: the stale
/// entry's `(url, id)`, `None` for a fresh entry, or the decode error.
pub open spec fn classification_of(body: Seq<char>, now: i64) -> Result<
    Option<(Seq<char>, u64)>,
    DecodeError,
> {
    match entry_fields_of(body) {
        None => Err(DecodeError::EntryShape),
        Some(f) => match rfc3339_epoch_of(f.1) {
            None => Err(DecodeError::PublishedTimestamp),
            Some(p) => if is_stale(p, now) {
                Ok(Some((f.2, f.0)))
            } else {
                Ok(None)
            },
        },
    }
}

/// Whether a classifier's return value agrees with what
/// `classification_of` demands.
pub open spec fn classification_matches(
    r: Result<Option<StaleEntry>, DecodeError>,
    c: Result<Option<(Seq<char>, u64)>, DecodeError>,
) -> bool {
    match (r, c) {
        (Ok(Some(e)), Ok(Some(t))) => e.url@ == t.0 && e.id == t.1,
        (Ok(None), Ok(None)) => true,
        (Err(a), Err(b)) => a == b,
        _ => false,
    }
}

/// Decodes one entry record and classifies it against `now` (seconds
/// since the Unix epoch): `Ok(Some(..))` exactly when the entry's
/// publish time is strictly earlier than `now` minus the threshold.
pub fn classify_entry(body: &str, now: i64) -> (r: Result<Option<StaleEntry>, DecodeError>)
    ensures
        classification_matches(r, classification_of(body@, now)),
{
    let entry = match parse_entry(body) {
        Ok(e) => e,
        Err(e) => {
            return Err(e);
        },
    };
    let published = match parse_rfc3339_epoch(entry.published.as_str()) {
        Some(p) => p,
        None => {
            return Err(DecodeError::PublishedTimestamp);
        },
    };
    if crate::check_stale(published, now) {
        Ok(Some(StaleEntry { url: entry.url, id: entry.id }))
    } else {
        Ok(None)
    }
}

/// Relies on chrono::Utc::now and chrono::DateTime::timestamp: the
/// wall clock, as whole seconds since the Unix epoch. Nothing is
/// promised of the value.
#[verifier::external_body]
fn now_epoch() -> i64 {
    chrono::Utc::now().timestamp()
}

/// Decodes one entry record and classifies it against the wall clock,
/// read once per call: whatever instant the clock gave, the result is
/// the classification against that instant.
pub fn one_month_old(body: &str) -> (r: Result<Option<StaleEntry>, DecodeError>)
    ensures
        exists|now: i64| classification_matches(r, classification_of(body@, now)),
{
    let now = now_epoch();
    classify_entry(body, now)
}

/// An entry is classified stale exactly when its record decodes, its
/// publish time parses, and that time is strictly earlier than `now`
/// minus the 30-day threshold; an entry published exactly at the
/// cutoff is not stale.
pub proof fn lemma_classification_exact(body: Seq<char>, now: i64)
    ensures
        (classification_of(body, now) matches Ok(r) && r is Some) <==> (entry_fields_of(body)
            matches Some(f) && rfc3339_epoch_of(f.1) matches Some(p) && (p as int) < (now as int)
            - (crate::STALE_THRESHOLD_SECONDS as int)),
        (entry_fields_of(body) matches Some(f) && rfc3339_epoch_of(f.1) matches Some(p) && (
        p as int) == (now as int) - (crate::STALE_THRESHOLD_SECONDS as int)) ==> classification_of(
            body,
            now,
        ) == Result::<Option<(Seq<char>, u64)>, DecodeError>::Ok(
            Option::<(Seq<char>, u64)>::None,
        ),
{
}

} // verus!
