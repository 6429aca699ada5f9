use kamism::api_ts::CallLogQuery;
use kamism::call_log::{call_log_page, LogRow};
use kamism::draw::{random_api_key, random_token};
use kamism::risk::{DAY_US, MAX_TIME_US, MIN_TIME_US, SECOND_US};

const NOW: i64 = 1_700_000_000_000_000; // 2023-11-14T22:13:20Z

fn row(key: &str, card: Option<&str>, status: &str, us: i64) -> LogRow {
    LogRow { key_name: key.to_string(), card_key: card.map(|c| c.to_string()), status: status.to_string(), created_us: us }
}

fn query(page: Option<i64>, page_size: Option<i64>) -> CallLogQuery {
    CallLogQuery { page, page_size, key_name: None, status: None, date_from: None, date_to: None }
}

fn shape(p: &kamism::call_log::CallLogPage) -> Vec<(usize, Vec<usize>)> {
    p.entries.iter().map(|e| (e.head, e.subs.clone())).collect()
}

#[test]
fn todays_calls_merge_within_five_seconds() {
    let rows = vec![
        row("k1", Some("c1"), "success", NOW - SECOND_US),
        row("k1", Some("c1"), "failed", NOW - 3 * SECOND_US),
        row("k1", Some("c2"), "success", NOW - 2 * SECOND_US),
        row("k1", None, "success", NOW - 6 * SECOND_US),
        row("k1", Some(""), "success", NOW - 7 * SECOND_US),
        row("k2", Some("c1"), "success", NOW - DAY_US),
        row("k2", Some("c1"), "failed", NOW - DAY_US - SECOND_US),
    ];
    let p = call_log_page(&rows, NOW, &query(Some(0), None));
    assert_eq!(shape(&p), vec![(2, vec![]), (1, vec![0]), (4, vec![3]), (5, vec![]), (6, vec![])]);
    assert_eq!(p.entries.iter().map(|e| e.today).collect::<Vec<_>>(), vec![true, true, true, false, false]);
    assert_eq!(p.total, 5);
    assert_eq!(p.raw_total, 7);
    assert_eq!(p.today_count, 5);
    assert_eq!(p.yesterday_count, 2);
    assert_eq!(p.today_success, 2);
    assert_eq!(p.today_failed, 1);
    assert_eq!(p.page, 1);
    assert_eq!(p.page_size, 20);
}

#[test]
fn other_days_are_never_merged() {
    let t = NOW - 2 * DAY_US;
    let rows = vec![row("k", Some("c"), "success", t), row("k", Some("c"), "success", t - 1)];
    let p = call_log_page(&rows, NOW, &query(Some(3), Some(5)));
    assert_eq!(shape(&p), vec![(0, vec![]), (1, vec![])]);
    assert_eq!(p.today_count, 0);
    assert_eq!(p.yesterday_count, 0);
    assert_eq!(p.today_success, 0);
    assert_eq!(p.today_failed, 0);
    assert_eq!(p.page, 3);
    assert_eq!(p.page_size, 5);
}

#[test]
fn windows_split_on_five_second_bounds() {
    // 22:13:15 opens a new window; 22:13:14.999999 is in the one before
    let rows = vec![
        row("k", Some("c"), "success", NOW - 5 * SECOND_US),
        row("k", Some("c"), "success", NOW - 5 * SECOND_US - 1),
    ];
    let p = call_log_page(&rows, NOW, &query(None, None));
    assert_eq!(shape(&p), vec![(0, vec![]), (1, vec![])]);
}

#[test]
fn lines_order_by_stamp_text() {
    // within a line the stamps are compared as text, so "…:15.500Z" comes before "…:15Z"
    let rows = vec![
        row("k", Some("c"), "success", NOW - 4_500_000),
        row("k", Some("c"), "failed", NOW - 5 * SECOND_US),
    ];
    let p = call_log_page(&rows, NOW, &query(None, None));
    assert_eq!(shape(&p), vec![(0, vec![1])]);
    assert_eq!(p.today_success, 1);
    assert_eq!(p.today_failed, 0);
}

#[test]
fn empty_log() {
    let p = call_log_page(&vec![], NOW, &query(None, Some(-1)));
    assert!(p.entries.is_empty());
    assert_eq!(p.total, 0);
    assert_eq!(p.raw_total, 0);
    assert_eq!(p.page_size, -1);
}

#[test]
fn random_tokens() {
    let t = random_token(24);
    assert_eq!(t.chars().count(), 24);
    assert!(t.chars().all(|c| c.is_ascii_alphanumeric()));
    assert_eq!(random_token(0), "");
    let k = random_api_key();
    assert_eq!(k.len(), 33);
    assert!(k.starts_with("km_"));
    assert!(k[3..].chars().all(|c| c.is_ascii_digit() || c.is_ascii_lowercase()));
    assert_ne!(random_api_key(), random_api_key());
}

#[test]
fn calendar_bounds_are_readable() {
    let rows = vec![row("k", None, "success", MAX_TIME_US), row("k", None, "failed", MIN_TIME_US)];
    let p = call_log_page(&rows, NOW, &query(None, None));
    // "-262143-…" comes after "+262142-…" as text
    assert_eq!(shape(&p), vec![(1, vec![]), (0, vec![])]);
    assert!(!p.entries[0].today && !p.entries[1].today);
}
