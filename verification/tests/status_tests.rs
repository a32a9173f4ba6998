use mxr_tui::status::{
    format_sync_age, summarize_sync_status, summarize_sync_status_with, sync_age_from,
    sync_age_label, AccountSyncStatus,
};

fn status(in_progress: bool, healthy: bool, error: Option<&str>, success: Option<&str>) -> AccountSyncStatus {
    AccountSyncStatus {
        sync_in_progress: in_progress,
        healthy,
        last_error: error.map(str::to_string),
        last_success_at: success.map(str::to_string),
    }
}

#[test]
fn age_labels_pick_the_largest_unit() {
    assert_eq!(sync_age_label(-5), "just now");
    assert_eq!(sync_age_label(59), "just now");
    assert_eq!(sync_age_label(60), "1m ago");
    assert_eq!(sync_age_label(3_599), "59m ago");
    assert_eq!(sync_age_label(3_600), "1h ago");
    assert_eq!(sync_age_label(86_399), "23h ago");
    assert_eq!(sync_age_label(172_800), "2d ago");
}

#[test]
fn age_keeps_the_timestamp_as_sort_key() {
    assert_eq!(sync_age_from(Some((1_000, 120))), Some(("2m ago".to_string(), 1_000)));
    assert_eq!(sync_age_from(None), None);
}

#[test]
fn sync_age_parses_rfc3339() {
    let (_, ts) = format_sync_age("2020-01-02T03:04:05Z").unwrap();
    assert_eq!(ts, 1_577_934_245);
    let (label, _) = format_sync_age("2020-01-02T03:04:05+01:00").unwrap();
    assert!(label.ends_with("d ago"));
    assert!(format_sync_age("yesterday").is_none());
}

#[test]
fn summary_reports_progress_then_problems() {
    assert_eq!(summarize_sync_status(&[]), "not synced");
    assert_eq!(
        summarize_sync_status(&[status(false, false, None, None), status(true, true, None, None)]),
        "syncing"
    );
    assert_eq!(summarize_sync_status(&[status(false, true, Some("boom"), None)]), "degraded");
    assert_eq!(summarize_sync_status(&[status(false, true, None, Some("not a date"))]), "not synced");
}

#[test]
fn summary_reports_the_latest_success() {
    let statuses = [status(false, true, None, Some("a")), status(false, true, None, Some("b")), status(false, true, None, Some("c"))];
    let ages = vec![
        Some(("3h ago".to_string(), 100)),
        Some(("1m ago".to_string(), 300)),
        Some(("2m ago".to_string(), 300)),
    ];
    assert_eq!(summarize_sync_status_with(&statuses, &ages), "synced 2m ago");
    let none = vec![None, None, None];
    assert_eq!(summarize_sync_status_with(&statuses, &none), "not synced");
    let s = summarize_sync_status(&[status(false, true, None, Some("2001-09-09T01:46:40Z"))]);
    assert!(s.starts_with("synced ") && s.ends_with("d ago"));
}
