//! The health of the connection to the daemon as the status bar and the
//! error modal show it, and the short window in which a mutation can be
//! undone. Instants are monotonic clock readings in nanoseconds.
use vstd::prelude::*;
use crate::text::{
    concat3, contains, contains_str, owned, to_lowercase, u64_to_decimal, lowercase_of, is_ascii_text,
    ascii_lowercase,
};

verus! {

broadcast use vstd::string::group_string_axioms;

/// How long a reconnection may last before the error modal opens: five
/// seconds.
pub const CONNECTION_STALE_THRESHOLD_NANOS: u64 = 5_000_000_000;

/// How long a mutation can be undone: sixty seconds, the daemon's own
/// limit.
pub const UNDO_HINT_TTL_NANOS: u64 = 60_000_000_000;

/// Health of the connection to the daemon.
pub enum ConnectionState {
    Connecting,
    Connected,
    /// Lost since `since`, for `reason`.
    Reconnecting { since: u64, reason: String },
}

/// The error modal.
pub struct ErrorModalState {
    pub title: String,
    pub detail: String,
    /// Lines scrolled past at the top of the detail text.
    pub scroll_offset: u16,
}

/// A recent mutation that can still be undone.
pub struct PendingUndo {
    pub mutation_id: String,
    /// The verb in the past tense, as the status bar shows it.
    pub verb_past: String,
    pub count: u32,
    /// When the mutation was applied.
    pub applied_at: u64,
}

/// Time from `since` to `now`, zero when `now` is earlier.
pub open spec fn elapsed(now: u64, since: u64) -> nat {
    if now >= since {
        (now - since) as nat
    } else {
        0
    }
}

/// Whether an error modal is the one about the daemon: its title
/// mentions the daemon, in any case.
pub open spec fn is_daemon_modal(m: Option<ErrorModalState>) -> bool {
    match m {
        Some(e) => contains(lowercase_of(e.title@), "daemon"@),
        None => false,
    }
}

fn daemon_modal_open(m: &Option<ErrorModalState>) -> (b: bool)
    ensures
        b == is_daemon_modal(*m),
{
    match m {
        Some(e) => {
            let lower = to_lowercase(e.title.as_str());
            contains_str(lower.as_str(), "daemon")
        },
        None => false,
    }
}

/// Records the new connection state. Reaching `Connected` closes the
/// error modal if it is the one about the daemon; other modals, and the
/// modal on other states, are left alone.
pub fn set_connection_state(
    current: &mut ConnectionState,
    error_modal: &mut Option<ErrorModalState>,
    state: ConnectionState,
)
    ensures
        *final(current) == state,
        (state is Connected && is_daemon_modal(*old(error_modal))) ==> *final(error_modal) is None,
        !(state is Connected && is_daemon_modal(*old(error_modal))) ==> *final(error_modal)
            == *old(error_modal),
{
    let connected = match state {
        ConnectionState::Connected => true,
        _ => false,
    };
    if connected && daemon_modal_open(error_modal) {
        *error_modal = None;
    }
    *current = state;
}

/// The message of the modal opened when the daemon stops responding.
pub open spec fn not_responding_detail(reason: Seq<char>) -> Seq<char> {
    "The mxr daemon is not responding ("@ + reason + "). Press `r` to retry, or `q` to quit."@
}

/// Whether the modal should open at `now`: the connection has been
/// reconnecting for at least the threshold and no daemon modal is open.
pub open spec fn opens_stale_modal(c: ConnectionState, m: Option<ErrorModalState>, now: u64) -> bool {
    match c {
        ConnectionState::Reconnecting { since, .. } => elapsed(now, since)
            >= CONNECTION_STALE_THRESHOLD_NANOS && !is_daemon_modal(m),
        _ => false,
    }
}

/// The title, text and scroll position of a modal.
pub open spec fn modal_view(m: Option<ErrorModalState>) -> Option<(Seq<char>, Seq<char>, u16)> {
    match m {
        Some(e) => Some((e.title@, e.detail@, e.scroll_offset)),
        None => None,
    }
}

/// Whether `after` is the error modal after a tick at `now` with the
/// connection in state `c` and the modal `before`.
pub open spec fn stale_tick(
    c: ConnectionState,
    before: Option<ErrorModalState>,
    after: Option<ErrorModalState>,
    now: u64,
) -> bool {
    if opens_stale_modal(c, before, now) {
        modal_view(after) == Some(("Daemon not responding"@, not_responding_detail(c->reason@), 0u16))
    } else {
        after == before
    }
}

/// Called on every tick: once the connection has been reconnecting for
/// the threshold, the modal saying the daemon is not responding opens in
/// place of any other, unless a daemon modal is already open.
pub fn tick_connection_state(current: &ConnectionState, error_modal: &mut Option<ErrorModalState>, now: u64)
    ensures
        stale_tick(*current, *old(error_modal), *final(error_modal), now),
{
    match current {
        ConnectionState::Reconnecting { since, reason } => {
            let gap: u64 = if now >= *since {
                now - *since
            } else {
                0
            };
            if gap >= CONNECTION_STALE_THRESHOLD_NANOS && !daemon_modal_open(error_modal) {
                let detail = concat3(
                    "The mxr daemon is not responding (",
                    reason.as_str(),
                    "). Press `r` to retry, or `q` to quit.",
                );
                *error_modal = Some(
                    ErrorModalState {
                        title: owned("Daemon not responding"),
                        detail,
                        scroll_offset: 0,
                    },
                );
            }
        },
        _ => {},
    }
}

/// Notes that the user asked to retry the connection now.
pub fn request_connection_retry(pending_retry: &mut bool)
    ensures
        *final(pending_retry),
{
    *pending_retry = true;
}

/// The status bar text about the connection: none while connected.
pub fn connection_state_label(current: &ConnectionState) -> (r: Option<String>)
    ensures
        match *current {
            ConnectionState::Connected => r is None,
            ConnectionState::Connecting => r matches Some(s) && s@ == "Connecting to daemon..."@,
            ConnectionState::Reconnecting { reason, .. } => r matches Some(s) && s@
                == "Reconnecting to daemon ("@ + reason@ + ")..."@,
        },
{
    match current {
        ConnectionState::Connected => None,
        ConnectionState::Connecting => Some(owned("Connecting to daemon...")),
        ConnectionState::Reconnecting { reason, .. } => Some(
            concat3("Reconnecting to daemon (", reason.as_str(), ")..."),
        ),
    }
}

// ---------------------------------------------------------------------
// Undo
// ---------------------------------------------------------------------

/// Whether an undo handle is still fresh at `now`.
pub open spec fn undo_fresh(u: PendingUndo, now: u64) -> bool {
    elapsed(now, u.applied_at) < UNDO_HINT_TTL_NANOS
}

/// Records the latest undoable mutation; it replaces any earlier one.
pub fn set_pending_undo(pending: &mut Option<PendingUndo>, undo: PendingUndo)
    ensures
        *final(pending) == Some(undo),
{
    *pending = Some(undo);
}

/// Whether `after` is the undo handle after a tick at `now` from
/// `before`: kept while fresh, dropped after.
pub open spec fn undo_tick(before: Option<PendingUndo>, after: Option<PendingUndo>, now: u64) -> bool {
    match before {
        Some(u) => if undo_fresh(u, now) {
            after == before
        } else {
            after is None
        },
        None => after is None,
    }
}

/// Drops the undo handle once it is no longer fresh.
pub fn tick_pending_undo(pending: &mut Option<PendingUndo>, now: u64)
    ensures
        undo_tick(*old(pending), *final(pending), now),
{
    let stale = match pending {
        Some(u) => {
            let gap: u64 = if now >= u.applied_at {
                now - u.applied_at
            } else {
                0
            };
            gap >= UNDO_HINT_TTL_NANOS
        },
        None => false,
    };
    if stale {
        *pending = None;
    }
}

/// How serious a reported problem is.
#[derive(Debug, Clone, Copy, PartialEq, Eq, Structural)]
pub enum UserErrorSeverity {
    Warn,
    Error,
}

/// Raises a reported problem to the error modal: an error opens the
/// modal with its title (`"Error"` when it has none) and message, unless
/// a modal is already open, since modals are never stacked; a warning
/// leaves the modal alone.
pub fn escalate_user_error(
    modal: &mut Option<ErrorModalState>,
    severity: UserErrorSeverity,
    title: Option<String>,
    message: String,
)
    ensures
        (severity == UserErrorSeverity::Error && *old(modal) is None) ==> modal_view(*final(modal))
            == Some(
            (
                match title {
                    Some(t) => t@,
                    None => "Error"@,
                },
                message@,
                0u16,
            ),
        ),
        !(severity == UserErrorSeverity::Error && *old(modal) is None) ==> *final(modal) == *old(
            modal,
        ),
{
    if severity == UserErrorSeverity::Error && modal.is_none() {
        let title = match title {
            Some(t) => t,
            None => owned("Error"),
        };
        *modal = Some(ErrorModalState { title, detail: message, scroll_offset: 0 });
    }
}

/// Takes the undo handle for the daemon's undo request. The handle is
/// cleared whatever the daemon answers, so `u` always undoes the most
/// recent mutation.
pub fn take_pending_undo(pending: &mut Option<PendingUndo>) -> (r: Option<PendingUndo>)
    ensures
        r == *old(pending),
        *final(pending) is None,
{
    pending.take()
}

/// `"<verb> <count> — u to undo"`.
pub open spec fn undo_label(u: PendingUndo) -> Seq<char> {
    u.verb_past@ + " "@ + crate::text::decimal(u.count as nat) + " — u to undo"@
}

/// Whether `r` is the status bar prompt for the handle at `now`.
pub open spec fn undo_prompt(pending: Option<PendingUndo>, now: u64, r: Option<String>) -> bool {
    match pending {
        Some(u) => if undo_fresh(u, now) {
            r matches Some(s) && s@ == undo_label(u)
        } else {
            r is None
        },
        None => r is None,
    }
}

/// The status bar prompt for a fresh undo handle.
pub fn pending_undo_label(pending: &Option<PendingUndo>, now: u64) -> (r: Option<String>)
    ensures
        undo_prompt(*pending, now, r),
{
    match pending {
        Some(u) => {
            let gap: u64 = if now >= u.applied_at {
                now - u.applied_at
            } else {
                0
            };
            if gap >= UNDO_HINT_TTL_NANOS {
                return None;
            }
            let head = concat3(u.verb_past.as_str(), " ", u64_to_decimal(u.count as u64).as_str());
            Some(crate::text::concat2(head.as_str(), " — u to undo"))
        },
        None => None,
    }
}

// ---------------------------------------------------------------------
// Laws
// ---------------------------------------------------------------------

/// The title of the modal about a stalled connection mentions the daemon
/// once lower-cased, so a daemon modal is recognised as open.
proof fn lemma_stale_title_mentions_daemon(title: Seq<char>)
    requires
        title == "Daemon not responding"@,
    ensures
        contains(lowercase_of(title), "daemon"@),
{
    reveal_strlit("Daemon not responding");
    reveal_strlit("daemon");
    assert(is_ascii_text(title));
    let low = lowercase_of(title);
    assert(low == ascii_lowercase(title));
    assert(low.subrange(0, 6) =~= "daemon"@);
    assert(crate::text::occurs_at(low, "daemon"@, 0));
}

/// The stale-connection tick is idempotent: a second tick at the same
/// instant changes nothing, since the modal the first one opens is the
/// daemon modal.
pub proof fn law_stale_tick_idempotent(
    c: ConnectionState,
    m0: Option<ErrorModalState>,
    m1: Option<ErrorModalState>,
    m2: Option<ErrorModalState>,
    now: u64,
)
    requires
        stale_tick(c, m0, m1, now),
        stale_tick(c, m1, m2, now),
    ensures
        m2 == m1,
{
    if opens_stale_modal(c, m0, now) {
        lemma_stale_title_mentions_daemon(m1->0.title@);
        assert(is_daemon_modal(m1));
    } else {
        assert(m1 == m0);
    }
}

/// The status bar offers an undo exactly while the tick keeps the
/// handle: at any instant the prompt is shown if and only if the handle
/// survives a tick.
pub proof fn law_undo_prompt_matches_tick(
    pending: Option<PendingUndo>,
    after: Option<PendingUndo>,
    r: Option<String>,
    now: u64,
)
    requires
        undo_tick(pending, after, now),
        undo_prompt(pending, now, r),
    ensures
        after is Some <==> r is Some,
{
}

/// Undo reverses only a mutation whose window is still open: after a
/// tick at `now`, taking the handle yields a mutation applied less than
/// the undo window before `now`, and nothing once the window has passed.
pub proof fn law_undo_only_within_window(
    p0: Option<PendingUndo>,
    p1: Option<PendingUndo>,
    taken: Option<PendingUndo>,
    now: u64,
)
    requires
        undo_tick(p0, p1, now),
        taken == p1,
    ensures
        taken matches Some(u) ==> p0 == Some(u) && elapsed(now, u.applied_at) < UNDO_HINT_TTL_NANOS,
        (p0 matches Some(u) && !undo_fresh(u, now)) ==> taken is None,
{
}

} // verus!
