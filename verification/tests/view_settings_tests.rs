use mxr_tui::action::Action;
use mxr_tui::body::{BodySource, BodyViewMetadata, BodyViewMode};
use mxr_tui::view_settings::{
    body_mode_status, toggle_view_setting, view_toggle_notice, MessageViewSettings,
    ViewToggleOutcome,
};

fn settings() -> MessageViewSettings {
    MessageViewSettings {
        html_view: false,
        reader_mode: false,
        remote_content_enabled: false,
        signature_expanded: false,
    }
}

#[test]
fn reading_view_needs_the_text_view() {
    let mut s = settings();
    s.html_view = true;
    let out = toggle_view_setting(&mut s, &Action::ToggleReaderMode, true);
    assert_eq!(out, ViewToggleOutcome::ReaderNeedsTextView);
    assert!(!s.reader_mode);
    assert_eq!(view_toggle_notice(out), Some("Switch to text view to use reading view"));
    s.html_view = false;
    assert_eq!(toggle_view_setting(&mut s, &Action::ToggleReaderMode, false), ViewToggleOutcome::Done);
    assert!(!s.reader_mode);
    assert_eq!(toggle_view_setting(&mut s, &Action::ToggleReaderMode, true), ViewToggleOutcome::Rerender);
    assert!(s.reader_mode);
}

#[test]
fn other_view_settings_flip() {
    let mut s = settings();
    let out = toggle_view_setting(&mut s, &Action::ToggleRemoteContent, false);
    assert_eq!(out, ViewToggleOutcome::RemoteImages(true));
    assert_eq!(view_toggle_notice(out), Some("Remote images shown in HTML view"));
    let out = toggle_view_setting(&mut s, &Action::ToggleRemoteContent, false);
    assert_eq!(view_toggle_notice(out), Some("Remote images blocked in HTML view"));
    assert_eq!(toggle_view_setting(&mut s, &Action::ToggleHtmlView, false), ViewToggleOutcome::Rerender);
    assert!(s.html_view);
    assert_eq!(toggle_view_setting(&mut s, &Action::ToggleSignature, false), ViewToggleOutcome::Done);
    assert!(s.signature_expanded);
    assert_eq!(toggle_view_setting(&mut s, &Action::Archive, false), ViewToggleOutcome::NotAToggle);
    assert_eq!(view_toggle_notice(ViewToggleOutcome::Rerender), None);
}

#[test]
fn body_mode_status_names_the_view() {
    let m = BodyViewMetadata {
        mode: BodyViewMode::Text,
        reader_applied: false,
        inline_images: false,
        flowed: false,
        remote_content_available: false,
        remote_content_enabled: false,
        original_lines: None,
        cleaned_lines: None,
    };
    assert_eq!(body_mode_status(&m, &BodySource::Plain), "Showing View: Plain text");
    let html = BodyViewMetadata { mode: BodyViewMode::Html, ..m };
    assert_eq!(body_mode_status(&html, &BodySource::Html), "Showing View: Original HTML");
}
