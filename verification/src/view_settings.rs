//! The view settings of the message view (HTML or text, the reading
//! view, remote images, the signature) and what the status bar says of
//! them.
use vstd::prelude::*;
use crate::action::Action;
use crate::body::{primary_body_label, primary_label, BodySource, BodyViewMetadata};

verus! {

/// The status line naming what the message view shows: `"Showing "`
/// and the view label.
pub fn body_mode_status(metadata: &BodyViewMetadata, source: &BodySource) -> (r: String)
    ensures
        r@ == "Showing "@ + primary_label(*metadata, *source),
{
    crate::text::concat2("Showing ", primary_body_label(metadata, source))
}

/// The view settings of the message view.
pub struct MessageViewSettings {
    pub html_view: bool,
    pub reader_mode: bool,
    pub remote_content_enabled: bool,
    pub signature_expanded: bool,
}

/// What is left to do after a view setting changes.
#[derive(Debug, Clone, Copy, PartialEq, Eq, Structural)]
pub enum ViewToggleOutcome {
    /// The action is not a view setting.
    NotAToggle,
    /// The reading view needs the text view: tell the user; nothing changed.
    ReaderNeedsTextView,
    /// Show the body again and report what is shown.
    Rerender,
    /// Show the body again with remote images now allowed (`true`) or
    /// blocked (`false`), and say so.
    RemoteImages(bool),
    /// Nothing more to do.
    Done,
}

/// Whether `new` and `out` follow from `a` applied to the settings `old`,
/// `body_ready` saying whether a body is shown: the reading view flips
/// only in the text view with a body shown; the HTML view, remote images
/// and the signature always flip.
pub open spec fn view_toggle_step(
    old: MessageViewSettings,
    new: MessageViewSettings,
    a: Action,
    body_ready: bool,
    out: ViewToggleOutcome,
) -> bool {
    match a {
        Action::ToggleReaderMode => if old.html_view {
            new == old && out == ViewToggleOutcome::ReaderNeedsTextView
        } else if body_ready {
            new == (MessageViewSettings { reader_mode: !old.reader_mode, ..old }) && out
                == ViewToggleOutcome::Rerender
        } else {
            new == old && out == ViewToggleOutcome::Done
        },
        Action::ToggleHtmlView => new == (MessageViewSettings { html_view: !old.html_view, ..old })
            && out == ViewToggleOutcome::Rerender,
        Action::ToggleRemoteContent => new == (MessageViewSettings {
            remote_content_enabled: !old.remote_content_enabled,
            ..old
        }) && out == ViewToggleOutcome::RemoteImages(!old.remote_content_enabled),
        Action::ToggleSignature => new == (MessageViewSettings {
            signature_expanded: !old.signature_expanded,
            ..old
        }) && out == ViewToggleOutcome::Done,
        _ => new == old && out == ViewToggleOutcome::NotAToggle,
    }
}

/// Applies a view setting action.
pub fn toggle_view_setting(settings: &mut MessageViewSettings, a: &Action, body_ready: bool) -> (out:
    ViewToggleOutcome)
    ensures
        view_toggle_step(*old(settings), *final(settings), *a, body_ready, out),
{
    match a {
        Action::ToggleReaderMode => {
            if settings.html_view {
                ViewToggleOutcome::ReaderNeedsTextView
            } else if body_ready {
                settings.reader_mode = !settings.reader_mode;
                ViewToggleOutcome::Rerender
            } else {
                ViewToggleOutcome::Done
            }
        },
        Action::ToggleHtmlView => {
            settings.html_view = !settings.html_view;
            ViewToggleOutcome::Rerender
        },
        Action::ToggleRemoteContent => {
            settings.remote_content_enabled = !settings.remote_content_enabled;
            ViewToggleOutcome::RemoteImages(settings.remote_content_enabled)
        },
        Action::ToggleSignature => {
            settings.signature_expanded = !settings.signature_expanded;
            ViewToggleOutcome::Done
        },
        _ => ViewToggleOutcome::NotAToggle,
    }
}

/// What the status bar says after a view setting changes, where it says
/// something of its own.
pub fn view_toggle_notice(out: ViewToggleOutcome) -> (r: Option<&'static str>)
    ensures
        r matches Some(t) ==> t@ == match out {
            ViewToggleOutcome::ReaderNeedsTextView => "Switch to text view to use reading view"@,
            ViewToggleOutcome::RemoteImages(true) => "Remote images shown in HTML view"@,
            _ => "Remote images blocked in HTML view"@,
        },
        r is Some <==> (out is ReaderNeedsTextView || out is RemoteImages),
{
    match out {
        ViewToggleOutcome::ReaderNeedsTextView => Some("Switch to text view to use reading view"),
        ViewToggleOutcome::RemoteImages(true) => Some("Remote images shown in HTML view"),
        ViewToggleOutcome::RemoteImages(false) => Some("Remote images blocked in HTML view"),
        _ => None,
    }
}

/// Toggling a view setting twice brings the settings back.
pub proof fn law_view_toggle_twice(
    s0: MessageViewSettings,
    s1: MessageViewSettings,
    s2: MessageViewSettings,
    a: Action,
    body_ready: bool,
    o1: ViewToggleOutcome,
    o2: ViewToggleOutcome,
)
    requires
        view_toggle_step(s0, s1, a, body_ready, o1),
        view_toggle_step(s1, s2, a, body_ready, o2),
    ensures
        s2 == s0,
{
}

} // verus!
