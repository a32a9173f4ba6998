use mxr_tui::connection::{
    connection_state_label, pending_undo_label, request_connection_retry, set_connection_state,
    set_pending_undo, take_pending_undo, tick_connection_state, tick_pending_undo, ConnectionState, ErrorModalState,
    PendingUndo,
};
use mxr_tui::connection::{escalate_user_error, UserErrorSeverity};

const SECOND: u64 = 1_000_000_000;

fn modal(title: &str) -> Option<ErrorModalState> {
    Some(ErrorModalState { title: title.into(), detail: "d".into(), scroll_offset: 0 })
}

fn reconnecting(since: u64) -> ConnectionState {
    ConnectionState::Reconnecting { since, reason: "socket closed".into() }
}

#[test]
fn connecting_closes_only_the_daemon_modal() {
    let mut state = ConnectionState::Connecting;
    let mut m = modal("Daemon NOT responding");
    set_connection_state(&mut state, &mut m, ConnectionState::Connected);
    assert!(matches!(state, ConnectionState::Connected));
    assert!(m.is_none());
    let mut other = modal("Send failed");
    set_connection_state(&mut state, &mut other, ConnectionState::Connected);
    assert!(other.is_some());
    let mut daemon = modal("daemon");
    set_connection_state(&mut state, &mut daemon, reconnecting(0));
    assert!(daemon.is_some());
}

#[test]
fn stale_reconnection_opens_the_modal_once() {
    let state = reconnecting(10 * SECOND);
    let mut m = None;
    tick_connection_state(&state, &mut m, 14 * SECOND);
    assert!(m.is_none());
    tick_connection_state(&state, &mut m, 15 * SECOND);
    let e = m.as_ref().unwrap();
    assert_eq!(e.title, "Daemon not responding");
    assert_eq!(
        e.detail,
        "The mxr daemon is not responding (socket closed). Press `r` to retry, or `q` to quit."
    );
    tick_connection_state(&state, &mut m, 20 * SECOND);
    assert_eq!(m.as_ref().unwrap().title, "Daemon not responding");
    let mut other = modal("Send failed");
    tick_connection_state(&state, &mut other, 20 * SECOND);
    assert_eq!(other.unwrap().title, "Daemon not responding");
    let mut none = None;
    tick_connection_state(&ConnectionState::Connected, &mut none, 99 * SECOND);
    assert!(none.is_none());
}

#[test]
fn connection_labels() {
    assert_eq!(connection_state_label(&ConnectionState::Connected), None);
    assert_eq!(connection_state_label(&ConnectionState::Connecting).as_deref(), Some("Connecting to daemon..."));
    assert_eq!(
        connection_state_label(&reconnecting(0)).as_deref(),
        Some("Reconnecting to daemon (socket closed)...")
    );
    let mut retry = false;
    request_connection_retry(&mut retry);
    assert!(retry);
}

#[test]
fn undo_prompt_lasts_a_minute() {
    let mut pending = None;
    set_pending_undo(
        &mut pending,
        PendingUndo { mutation_id: "m1".into(), verb_past: "Archived".into(), count: 15, applied_at: 100 * SECOND },
    );
    assert_eq!(pending_undo_label(&pending, 159 * SECOND).as_deref(), Some("Archived 15 — u to undo"));
    tick_pending_undo(&mut pending, 159 * SECOND);
    assert!(pending.is_some());
    assert_eq!(pending_undo_label(&pending, 160 * SECOND), None);
    tick_pending_undo(&mut pending, 160 * SECOND);
    assert!(pending.is_none());
    assert_eq!(pending_undo_label(&pending, 0), None);
}

#[test]
fn undo_handle_is_taken_once_and_only_while_fresh() {
    let undo = PendingUndo {
        mutation_id: "m1".into(),
        verb_past: "Archived".into(),
        count: 3,
        applied_at: 10 * SECOND,
    };
    let mut pending = None;
    set_pending_undo(&mut pending, undo);
    tick_pending_undo(&mut pending, 30 * SECOND);
    let taken = take_pending_undo(&mut pending).expect("fresh handle");
    assert_eq!(taken.mutation_id, "m1");
    assert!(take_pending_undo(&mut pending).is_none());

    let mut stale = Some(PendingUndo {
        mutation_id: "m2".into(),
        verb_past: "Trashed".into(),
        count: 1,
        applied_at: 0,
    });
    tick_pending_undo(&mut stale, 61 * SECOND);
    assert!(take_pending_undo(&mut stale).is_none());
}

#[test]
fn reported_errors_open_the_modal_once() {
    let mut m = None;
    escalate_user_error(&mut m, UserErrorSeverity::Warn, None, "slow".into());
    assert!(m.is_none());
    escalate_user_error(&mut m, UserErrorSeverity::Error, None, "send failed".into());
    let open = m.as_ref().unwrap();
    assert_eq!(open.title, "Error");
    assert_eq!(open.detail, "send failed");
    escalate_user_error(&mut m, UserErrorSeverity::Error, Some("Sync".into()), "later".into());
    assert_eq!(m.as_ref().unwrap().detail, "send failed");
    let mut fresh = None;
    escalate_user_error(&mut fresh, UserErrorSeverity::Error, Some("Sync".into()), "x".into());
    assert_eq!(fresh.unwrap().title, "Sync");
}
