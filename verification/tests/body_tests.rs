use mxr_tui::body::{
    attachment_is_inlineish, attachment_summaries_for_envelope, body_inline_images,
    browser_document, envelope_preview, sorted_attachment_panel_attachments,
    AttachmentDisposition, AttachmentMeta,
    body_status_labels, body_status_labels_with_loading, bulk_message_detail,
    html_has_remote_content, pluralize_messages, primary_body_label, reader_trim_label,
    render_plain_text_browser_document, unsubscribe_banner_label, unsubscribe_method_label,
    BodySource, BodyViewMetadata, BodyViewMode, UnsubscribeMethod,
};
use mxr_tui::body::{choose_body_view, BodyChoice};
use mxr_tui::mailbox::{Address, Envelope, MessageBody};
use std::collections::HashMap;

fn metadata(mode: BodyViewMode) -> BodyViewMetadata {
    BodyViewMetadata {
        mode,
        reader_applied: false,
        inline_images: false,
        flowed: false,
        remote_content_available: false,
        remote_content_enabled: false,
        original_lines: None,
        cleaned_lines: None,
    }
}

#[test]
fn primary_label_names_what_is_shown() {
    let html = metadata(BodyViewMode::Html);
    assert_eq!(primary_body_label(&html, &BodySource::Html), "View: Original HTML");
    assert_eq!(primary_body_label(&html, &BodySource::Plain), "View: Plain text (no HTML)");
    assert_eq!(primary_body_label(&html, &BodySource::Fallback), "View: Message summary (no HTML)");
    let mut text = metadata(BodyViewMode::Text);
    assert_eq!(primary_body_label(&text, &BodySource::Html), "View: HTML as text");
    assert_eq!(primary_body_label(&text, &BodySource::Snippet), "View: Snippet preview");
    text.reader_applied = true;
    assert_eq!(primary_body_label(&text, &BodySource::Plain), "View: Reading");
}

#[test]
fn trim_label_counts_removed_lines() {
    let mut m = metadata(BodyViewMode::Text);
    m.original_lines = Some(10);
    m.cleaned_lines = Some(9);
    assert_eq!(reader_trim_label(&m), None);
    m.reader_applied = true;
    assert_eq!(reader_trim_label(&m).as_deref(), Some("trimmed 1 line"));
    m.cleaned_lines = Some(3);
    assert_eq!(reader_trim_label(&m).as_deref(), Some("trimmed 7 lines"));
    m.cleaned_lines = Some(10);
    assert_eq!(reader_trim_label(&m), None);
    m.cleaned_lines = None;
    assert_eq!(reader_trim_label(&m), None);
}

#[test]
fn status_labels_follow_the_metadata() {
    let mut m = metadata(BodyViewMode::Html);
    m.reader_applied = true;
    m.inline_images = true;
    m.flowed = true;
    m.remote_content_available = true;
    m.original_lines = Some(20);
    m.cleaned_lines = Some(15);
    assert_eq!(
        body_status_labels(&m, &BodySource::Html, true),
        vec![
            "View: Original HTML",
            "from html",
            "inline images",
            "wrapped text",
            "External content blocked — press M to allow once",
            "trimmed 5 lines",
        ]
    );
    m.remote_content_enabled = true;
    assert_eq!(
        body_status_labels_with_loading(&m, &BodySource::Html, false, true),
        vec!["View: Original HTML", "from html", "inline images", "wrapped text", "Loading external assets…"]
    );
    assert_eq!(
        body_status_labels(&m, &BodySource::Html, false)[4],
        "remote images shown"
    );
}

#[test]
fn text_view_never_reports_remote_content() {
    let mut m = metadata(BodyViewMode::Text);
    m.remote_content_available = true;
    assert_eq!(body_status_labels(&m, &BodySource::Plain, true), vec!["View: Plain text"]);
}

#[test]
fn unsubscribe_labels() {
    let one_click = UnsubscribeMethod::OneClick { url: "https://x".into() };
    let mailto = UnsubscribeMethod::Mailto { address: "a@b".into(), subject: None };
    let http = UnsubscribeMethod::HttpLink { url: "https://y".into() };
    let body = UnsubscribeMethod::BodyLink { url: "https://z".into() };
    assert_eq!(unsubscribe_method_label(&one_click), "one-click");
    assert_eq!(unsubscribe_method_label(&mailto), "mailto");
    assert_eq!(unsubscribe_method_label(&http), "browser link");
    assert_eq!(unsubscribe_method_label(&body), "body link");
    assert_eq!(unsubscribe_method_label(&UnsubscribeMethod::Unavailable), "none");
    assert_eq!(unsubscribe_banner_label(&one_click), Some("One-click unsubscribe"));
    assert_eq!(unsubscribe_banner_label(&http), Some("Open unsubscribe page"));
    assert_eq!(unsubscribe_banner_label(&body), Some("Open unsubscribe page"));
    assert_eq!(unsubscribe_banner_label(&mailto), Some("Email unsubscribe"));
    assert_eq!(unsubscribe_banner_label(&UnsubscribeMethod::Unavailable), None);
}

#[test]
fn bulk_detail_pluralizes() {
    assert_eq!(pluralize_messages(1), "message");
    assert_eq!(pluralize_messages(0), "messages");
    assert_eq!(bulk_message_detail("archive", 1), "You are about to archive these 1 message.");
    assert_eq!(bulk_message_detail("delete", 12), "You are about to delete these 12 messages.");
}

#[test]
fn remote_images_are_detected() {
    assert!(html_has_remote_content("<p><IMG class=x SRC = 'https://cdn.example/a.png'></p>"));
    assert!(html_has_remote_content("<img\nsrc=\"http://example.com/x\">"));
    assert!(!html_has_remote_content("<img src=\"cid:logo\">"));
    assert!(!html_has_remote_content("<p>https://example.com</p>"));
    assert!(!html_has_remote_content(""));
}

#[test]
fn plain_text_document_escapes_markup() {
    let doc = render_plain_text_browser_document("a < b & \"c\" 'd' > e");
    assert!(doc.starts_with("<!doctype html><html><head><meta charset=\"utf-8\"><title>mxr message</title><style>body{margin:2rem;"));
    assert!(doc.ends_with("<pre>a &lt; b &amp; &quot;c&quot; &#x27;d&#x27; &gt; e</pre></body></html>"));
}

fn part(name: &str, disposition: AttachmentDisposition, cid: Option<&str>) -> AttachmentMeta {
    AttachmentMeta {
        filename: name.into(),
        size_bytes: name.len() as u64,
        disposition,
        content_id: cid.map(str::to_string),
        content_location: None,
    }
}

fn message_body(id: u128, parts: Vec<AttachmentMeta>) -> MessageBody {
    MessageBody { message_id: id, text_plain: None, text_html: None, calendar_invite: false, attachments: parts }
}

fn envelope(id: u128, snippet: &str) -> Envelope {
    Envelope {
        id,
        thread_id: 1,
        from: Address { name: None, email: "a@b".into() },
        to: vec![],
        cc: vec![],
        subject: "s".into(),
        snippet: snippet.into(),
        date: 0,
        read: true,
        body_word_count: 0,
    }
}

#[test]
fn previews_skip_blank_snippets() {
    assert_eq!(envelope_preview(&envelope(1, "  hello ")).as_deref(), Some("  hello "));
    assert_eq!(envelope_preview(&envelope(1, " \n ")), None);
}

#[test]
fn attachment_panel_lists_real_attachments_first() {
    let logo = part("logo.png", AttachmentDisposition::Attachment, Some("logo"));
    let report = part("report.pdf", AttachmentDisposition::Attachment, None);
    let inline = part("inline.gif", AttachmentDisposition::Inline, None);
    let notes = part("notes.txt", AttachmentDisposition::Attachment, None);
    assert!(attachment_is_inlineish(&logo));
    assert!(!attachment_is_inlineish(&report));
    let body = message_body(5, vec![logo.clone(), report.clone(), inline.clone(), notes.clone()]);
    assert!(body_inline_images(&body));
    assert!(!body_inline_images(&message_body(6, vec![report.clone()])));
    assert_eq!(sorted_attachment_panel_attachments(&body), vec![report, notes, logo, inline]);
}

#[test]
fn attachment_summaries_need_a_fetched_body() {
    let mut cache = HashMap::new();
    cache.insert(5, message_body(5, vec![part("a.pdf", AttachmentDisposition::Attachment, None)]));
    let listed = attachment_summaries_for_envelope(&cache, &envelope(5, ""));
    assert_eq!(listed.len(), 1);
    assert_eq!(listed[0].filename, "a.pdf");
    assert_eq!(listed[0].size_bytes, 5);
    assert!(attachment_summaries_for_envelope(&cache, &envelope(6, "")).is_empty());
}

#[test]
fn browser_document_prefers_html_then_plain_then_summary() {
    let mut body = message_body(1, vec![]);
    assert_eq!(browser_document(&body, None), None);
    let doc = browser_document(&body, Some("<sum>".into())).unwrap();
    assert!(doc.contains("<pre>&lt;sum&gt;</pre>"));
    body.text_plain = Some("plain & simple".into());
    assert!(browser_document(&body, None).unwrap().contains("<pre>plain &amp; simple</pre>"));
    body.text_html = Some("<p>html</p>".into());
    assert_eq!(browser_document(&body, None).as_deref(), Some("<p>html</p>"));
}

fn ready(c: BodyChoice) -> (String, BodySource, BodyViewMode, bool) {
    match c {
        BodyChoice::Ready { raw, source, mode, reader } => (raw, source, mode, reader),
        _ => panic!("expected a body to show"),
    }
}

#[test]
fn body_view_picks_the_source_by_view() {
    let mut both = message_body(1, vec![]);
    both.text_plain = Some("plain".into());
    both.text_html = Some("<p>html</p>".into());
    assert_eq!(
        ready(choose_body_view(Some(&both), true, true, false, None)),
        ("<p>html</p>".to_string(), BodySource::Html, BodyViewMode::Html, false)
    );
    assert_eq!(
        ready(choose_body_view(Some(&both), false, true, false, None)),
        ("plain".to_string(), BodySource::Plain, BodyViewMode::Text, true)
    );
    let mut html_only = message_body(2, vec![]);
    html_only.text_html = Some("<b>x</b>".into());
    assert_eq!(
        ready(choose_body_view(Some(&html_only), false, false, false, None)),
        ("<b>x</b>".to_string(), BodySource::Html, BodyViewMode::Text, false)
    );
    let mut plain_only = message_body(3, vec![]);
    plain_only.text_plain = Some("p".into());
    assert_eq!(
        ready(choose_body_view(Some(&plain_only), true, true, false, None)),
        ("p".to_string(), BodySource::Plain, BodyViewMode::Html, false)
    );
    let bare = message_body(4, vec![]);
    assert_eq!(
        ready(choose_body_view(Some(&bare), false, false, false, Some("summary".into()))),
        ("summary".to_string(), BodySource::Fallback, BodyViewMode::Text, false)
    );
    assert!(matches!(choose_body_view(Some(&bare), false, false, true, None), BodyChoice::Empty));
    assert!(matches!(choose_body_view(None, false, false, true, None), BodyChoice::Loading));
    assert!(matches!(choose_body_view(None, true, false, false, None), BodyChoice::Empty));
}
