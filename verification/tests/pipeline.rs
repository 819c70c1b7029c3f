use feed_sweep::check_stale;
use feed_sweep::entries::{classify_entry, one_month_old, parse_entry, StaleEntry};
use feed_sweep::errors::DecodeError;
use feed_sweep::marker::{decide_action, RunAction};
use feed_sweep::unread::{ids_to_fetch, parse_unread_ids, stale_ids};
use feed_sweep::STALE_THRESHOLD_SECONDS;

const NOW: i64 = 1700000000;
const DAY: i64 = 86400;

fn rfc3339(epoch: i64) -> String {
    chrono::DateTime::from_timestamp(epoch, 0)
        .unwrap()
        .to_rfc3339()
}

fn entry_body(id: u64, published: &str, url: &str) -> String {
    format!(
        "{{\"author\": \"a\", \"id\": {}, \"published\": \"{}\", \"url\": \"{}\"}}",
        id, published, url
    )
}

#[test]
fn boundary_is_not_stale() {
    assert!(!check_stale(NOW - STALE_THRESHOLD_SECONDS, NOW));
    assert!(check_stale(NOW - STALE_THRESHOLD_SECONDS - 1, NOW));
    assert!(!check_stale(NOW, NOW));
    assert!(!check_stale(NOW - 10 * DAY, NOW));
    assert!(check_stale(NOW - 40 * DAY, NOW));
}

#[test]
fn parse_unread_ids_reads_the_list() {
    assert_eq!(parse_unread_ids("[1,2,3]"), Ok(vec![1, 2, 3]));
    assert_eq!(parse_unread_ids("[]"), Ok(vec![]));
    assert_eq!(parse_unread_ids("[4048174490]"), Ok(vec![4048174490]));
}

#[test]
fn parse_unread_ids_rejects_other_shapes() {
    assert_eq!(
        parse_unread_ids("{\"a\": 1}"),
        Err(DecodeError::UnreadList)
    );
    assert_eq!(
        parse_unread_ids("[1, \"x\"]"),
        Err(DecodeError::UnreadList)
    );
    assert_eq!(parse_unread_ids("not json"), Err(DecodeError::UnreadList));
}

#[test]
fn cap_keeps_only_the_first_fifty() {
    let ids: Vec<u64> = (0..60).collect();
    let kept = ids_to_fetch(&ids);
    assert_eq!(kept.len(), 50);
    assert_eq!(kept, (0..50).collect::<Vec<u64>>());
    assert!(!kept.contains(&50));
    assert!(!kept.contains(&59));
}

#[test]
fn cap_keeps_a_short_list_whole() {
    let ids: Vec<u64> = vec![9, 8, 7];
    assert_eq!(ids_to_fetch(&ids), vec![9, 8, 7]);
    assert_eq!(ids_to_fetch(&vec![]), Vec::<u64>::new());
}

#[test]
fn parse_entry_reads_the_fields() {
    let body = entry_body(7, "2023-03-22T19:30:07.000000Z", "https://example.org/a");
    let entry = parse_entry(&body).unwrap();
    assert_eq!(entry.id, 7);
    assert_eq!(entry.published, "2023-03-22T19:30:07.000000Z");
    assert_eq!(entry.url, "https://example.org/a");
}

#[test]
fn parse_entry_rejects_missing_fields() {
    assert_eq!(
        parse_entry("{\"id\": 7, \"url\": \"u\"}").map(|e| e.id),
        Err(DecodeError::EntryShape)
    );
    assert_eq!(
        parse_entry("{\"id\": \"seven\", \"published\": \"p\", \"url\": \"u\"}").map(|e| e.id),
        Err(DecodeError::EntryShape)
    );
    assert_eq!(
        parse_entry("not json").map(|e| e.id),
        Err(DecodeError::EntryShape)
    );
}

#[test]
fn classify_finds_an_old_entry_stale() {
    let body = entry_body(1, &rfc3339(NOW - 40 * DAY), "https://example.org/old");
    let got = classify_entry(&body, NOW).unwrap().unwrap();
    assert_eq!(got.id, 1);
    assert_eq!(got.url, "https://example.org/old");
}

#[test]
fn classify_keeps_a_fresh_entry() {
    let body = entry_body(2, &rfc3339(NOW - 10 * DAY), "https://example.org/new");
    assert_eq!(classify_entry(&body, NOW).unwrap(), None);
}

#[test]
fn classify_excludes_the_boundary() {
    let body = entry_body(3, &rfc3339(NOW - 30 * DAY), "https://example.org/edge");
    assert_eq!(classify_entry(&body, NOW).unwrap(), None);
}

#[test]
fn classify_rejects_a_bad_timestamp() {
    let body = entry_body(4, "yesterday-ish", "https://example.org/bad");
    assert_eq!(
        classify_entry(&body, NOW),
        Err(DecodeError::PublishedTimestamp)
    );
}

#[test]
fn one_month_old_against_the_clock() {
    let old = entry_body(1, "1970-01-02T00:00:00+00:00", "https://example.org/old");
    let got = one_month_old(&old).unwrap().unwrap();
    assert_eq!(got.id, 1);
    let future = entry_body(2, "9999-01-01T00:00:00+00:00", "https://example.org/future");
    assert_eq!(one_month_old(&future).unwrap(), None);
}

#[test]
fn one_month_example() {
    let unread = parse_unread_ids("[1,2,3]").unwrap();
    let to_fetch = ids_to_fetch(&unread);
    assert_eq!(to_fetch, vec![1, 2, 3]);

    let bodies = vec![
        entry_body(1, &rfc3339(NOW - 40 * DAY), "https://example.org/1"),
        entry_body(2, &rfc3339(NOW - 10 * DAY), "https://example.org/2"),
        entry_body(3, &rfc3339(NOW - 30 * DAY), "https://example.org/3"),
    ];
    let mut stale: Vec<StaleEntry> = Vec::new();
    for body in &bodies {
        if let Some(e) = classify_entry(body, NOW).unwrap() {
            stale.push(e);
        }
    }
    assert_eq!(stale.len(), 1);
    assert_eq!(stale[0].id, 1);
    println!("{} entries are one month old", stale.len());

    let ids = stale_ids(&stale);
    assert_eq!(ids, vec![1]);

    match decide_action(&ids, true) {
        RunAction::Report { stale_count } => assert_eq!(stale_count, 1),
        RunAction::MarkAsRead { .. } => panic!("dry run must not build a marking request"),
    }
    match decide_action(&ids, false) {
        RunAction::Report { .. } => panic!("a real run must mark"),
        RunAction::MarkAsRead { body } => {
            assert_eq!(body, b"{\"unread_entries\": [1]}".to_vec());
        }
    }
}

#[test]
fn stale_ids_keeps_order_and_count() {
    let stale = vec![
        StaleEntry {
            url: "https://example.org/b".to_string(),
            id: 11,
        },
        StaleEntry {
            url: "https://example.org/a".to_string(),
            id: 5,
        },
    ];
    assert_eq!(stale_ids(&stale), vec![11, 5]);
    assert_eq!(stale_ids(&Vec::new()), Vec::<u64>::new());
}
