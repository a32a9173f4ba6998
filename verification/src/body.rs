//! The message view: the labels shown above a message body, the
//! unsubscribe banner, the confirmation text of bulk actions, and the
//! document a plain-text message is opened as in a browser.
use vstd::prelude::*;
use std::collections::HashMap;
use crate::mailbox::{Envelope, MessageBody, MessageId};
use crate::text::{owned, concat3, u64_to_decimal, decimal, blank, is_blank};

verus! {

broadcast use vstd::string::group_string_axioms;

/// Whether the body is shown as text or as rendered HTML.
#[derive(Debug, Clone, Copy, PartialEq, Eq, Structural)]
pub enum BodyViewMode {
    Text,
    Html,
}

/// Where the shown body comes from.
#[derive(Debug, Clone, Copy, PartialEq, Eq, Structural)]
pub enum BodySource {
    Plain,
    Html,
    Fallback,
    Snippet,
}

/// What the view knows of the body it shows.
#[derive(Debug, Clone, Copy, PartialEq, Eq, Structural)]
pub struct BodyViewMetadata {
    pub mode: BodyViewMode,
    /// Whether the reader cleaned the body (quotes, signatures, ...).
    pub reader_applied: bool,
    pub inline_images: bool,
    /// Whether the plain text is `format=flowed`.
    pub flowed: bool,
    /// Whether the HTML refers to remote images.
    pub remote_content_available: bool,
    /// Whether remote content is allowed to load.
    pub remote_content_enabled: bool,
    /// Lines before the reader cleaned the body.
    pub original_lines: Option<usize>,
    /// Lines after the reader cleaned the body.
    pub cleaned_lines: Option<usize>,
}

/// The first label: what is being shown.
pub open spec fn primary_label(m: BodyViewMetadata, source: BodySource) -> Seq<char> {
    match m.mode {
        BodyViewMode::Html => match source {
            BodySource::Html => "View: Original HTML"@,
            BodySource::Plain => "View: Plain text (no HTML)"@,
            BodySource::Fallback => "View: Message summary (no HTML)"@,
            BodySource::Snippet => "View: Snippet preview"@,
        },
        BodyViewMode::Text => if m.reader_applied {
            "View: Reading"@
        } else {
            match source {
                BodySource::Plain => "View: Plain text"@,
                BodySource::Html => "View: HTML as text"@,
                BodySource::Fallback => "View: Message summary"@,
                BodySource::Snippet => "View: Snippet preview"@,
            }
        },
    }
}

/// The label that says what is being shown.
pub fn primary_body_label(metadata: &BodyViewMetadata, source: &BodySource) -> (r: &'static str)
    ensures
        r@ == primary_label(*metadata, *source),
{
    match (metadata.mode, metadata.reader_applied, source) {
        (BodyViewMode::Html, _, BodySource::Html) => "View: Original HTML",
        (BodyViewMode::Html, _, BodySource::Plain) => "View: Plain text (no HTML)",
        (BodyViewMode::Html, _, BodySource::Fallback) => "View: Message summary (no HTML)",
        (BodyViewMode::Html, _, BodySource::Snippet) => "View: Snippet preview",
        (BodyViewMode::Text, true, _) => "View: Reading",
        (BodyViewMode::Text, false, BodySource::Plain) => "View: Plain text",
        (BodyViewMode::Text, false, BodySource::Html) => "View: HTML as text",
        (BodyViewMode::Text, false, BodySource::Fallback) => "View: Message summary",
        (BodyViewMode::Text, false, BodySource::Snippet) => "View: Snippet preview",
    }
}

/// How many lines the reader took out, where it did and both counts are
/// known.
pub open spec fn trimmed_lines(m: BodyViewMetadata) -> Option<nat> {
    if !m.reader_applied {
        None
    } else {
        match (m.original_lines, m.cleaned_lines) {
            (Some(o), Some(c)) => if c >= o {
                None
            } else {
                Some((o - c) as nat)
            },
            _ => None,
        }
    }
}

/// `"trimmed N line"` or `"trimmed N lines"`.
pub open spec fn trim_label(n: nat) -> Seq<char> {
    "trimmed "@ + decimal(n) + if n == 1 {
        " line"@
    } else {
        " lines"@
    }
}

/// The label that says how many lines the reader took out, if it took
/// any out.
pub fn reader_trim_label(metadata: &BodyViewMetadata) -> (r: Option<String>)
    ensures
        match trimmed_lines(*metadata) {
            Some(n) => r matches Some(s) && s@ == trim_label(n),
            None => r is None,
        },
{
    if !metadata.reader_applied {
        return None;
    }
    let (original, cleaned) = match (metadata.original_lines, metadata.cleaned_lines) {
        (Some(o), Some(c)) => (o, c),
        _ => {
            return None;
        },
    };
    if cleaned >= original {
        return None;
    }
    let trimmed = original - cleaned;
    let count = u64_to_decimal(trimmed as u64);
    let unit = if trimmed == 1 {
        " line"
    } else {
        " lines"
    };
    Some(concat3("trimmed ", count.as_str(), unit))
}

/// Where a reader-cleaned body came from.
pub open spec fn origin_label(source: BodySource) -> Seq<char> {
    match source {
        BodySource::Plain => "from plain text"@,
        BodySource::Html => "from html"@,
        BodySource::Fallback => "from summary"@,
        BodySource::Snippet => "from snippet"@,
    }
}

/// The label about remote content, for an HTML view that has some.
pub open spec fn remote_label(m: BodyViewMetadata, assets_loading: bool) -> Seq<char> {
    if m.remote_content_enabled {
        if assets_loading {
            "Loading external assets…"@
        } else {
            "remote images shown"@
        }
    } else {
        "External content blocked — press M to allow once"@
    }
}

/// A label when `cond` holds, nothing otherwise.
pub open spec fn label_if(cond: bool, label: Seq<char>) -> Seq<Seq<char>> {
    if cond {
        seq![label]
    } else {
        seq![]
    }
}

/// The labels shown above a body, in order: what is shown; where a
/// cleaned body came from; inline images; wrapped text; remote content
/// (in the HTML view, when the body has some); the lines the reader
/// took out (when reader statistics are on).
pub open spec fn status_labels(
    m: BodyViewMetadata,
    source: BodySource,
    show_reader_stats: bool,
    assets_loading: bool,
) -> Seq<Seq<char>> {
    seq![primary_label(m, source)] + label_if(m.reader_applied, origin_label(source)) + label_if(
        m.inline_images,
        "inline images"@,
    ) + label_if(m.flowed, "wrapped text"@) + label_if(
        m.mode == BodyViewMode::Html && m.remote_content_available,
        remote_label(m, assets_loading),
    ) + match trimmed_lines(m) {
        Some(n) => label_if(show_reader_stats, trim_label(n)),
        None => seq![],
    }
}

/// The characters of each label.
pub open spec fn label_views(v: Seq<String>) -> Seq<Seq<char>> {
    v.map_values(|s: String| s@)
}

fn push_label(labels: &mut Vec<String>, label: String)
    ensures
        label_views(final(labels)@) == label_views(old(labels)@).push(label@),
{
    labels.push(label);
    assert(label_views(final(labels)@) =~= label_views(old(labels)@).push(label@));
}

/// The labels shown above a body, with the label for remote content
/// saying whether its assets are still loading.
pub fn body_status_labels_with_loading(
    metadata: &BodyViewMetadata,
    source: &BodySource,
    show_reader_stats: bool,
    assets_loading: bool,
) -> (r: Vec<String>)
    ensures
        label_views(r@) == status_labels(*metadata, *source, show_reader_stats, assets_loading),
{
    let m = *metadata;
    let mut chips: Vec<String> = Vec::new();
    push_label(&mut chips, owned(primary_body_label(metadata, source)));
    let ghost after_primary = label_views(chips@);
    if metadata.reader_applied {
        let origin = match source {
            BodySource::Plain => "from plain text",
            BodySource::Html => "from html",
            BodySource::Fallback => "from summary",
            BodySource::Snippet => "from snippet",
        };
        push_label(&mut chips, owned(origin));
    }
    let ghost after_origin = label_views(chips@);
    assert(after_origin =~= after_primary + label_if(m.reader_applied, origin_label(*source)));
    if metadata.inline_images {
        push_label(&mut chips, owned("inline images"));
    }
    let ghost after_images = label_views(chips@);
    assert(after_images =~= after_origin + label_if(m.inline_images, "inline images"@));
    if metadata.flowed {
        push_label(&mut chips, owned("wrapped text"));
    }
    let ghost after_flowed = label_views(chips@);
    assert(after_flowed =~= after_images + label_if(m.flowed, "wrapped text"@));
    if metadata.mode == BodyViewMode::Html && metadata.remote_content_available {
        let label = if metadata.remote_content_enabled {
            if assets_loading {
                "Loading external assets…"
            } else {
                "remote images shown"
            }
        } else {
            "External content blocked — press M to allow once"
        };
        push_label(&mut chips, owned(label));
    }
    let ghost after_remote = label_views(chips@);
    assert(after_remote =~= after_flowed + label_if(
        m.mode == BodyViewMode::Html && m.remote_content_available,
        remote_label(m, assets_loading),
    ));
    if show_reader_stats {
        match reader_trim_label(metadata) {
            Some(label) => push_label(&mut chips, label),
            None => {},
        }
    }
    assert(label_views(chips@) =~= after_remote + match trimmed_lines(m) {
        Some(n) => label_if(show_reader_stats, trim_label(n)),
        None => seq![],
    });
    chips
}

/// The labels shown above a body.
pub fn body_status_labels(metadata: &BodyViewMetadata, source: &BodySource, show_reader_stats: bool) -> (r: Vec<
    String,
>)
    ensures
        label_views(r@) == status_labels(*metadata, *source, show_reader_stats, false),
{
    body_status_labels_with_loading(metadata, source, show_reader_stats, false)
}

// ---------------------------------------------------------------------
// Unsubscribing
// ---------------------------------------------------------------------

/// How a sender can be unsubscribed from.
#[derive(Debug, Clone, PartialEq, Eq)]
pub enum UnsubscribeMethod {
    /// A `List-Unsubscribe-Post` one-click request.
    OneClick { url: String },
    /// An email to a list address.
    Mailto { address: String, subject: Option<String> },
    /// A `List-Unsubscribe` web page.
    HttpLink { url: String },
    /// A link found in the body.
    BodyLink { url: String },
    /// No way to unsubscribe.
    Unavailable,
}

/// The short name of an unsubscribe method.
pub open spec fn method_label(m: UnsubscribeMethod) -> Seq<char> {
    match m {
        UnsubscribeMethod::OneClick { .. } => "one-click"@,
        UnsubscribeMethod::Mailto { .. } => "mailto"@,
        UnsubscribeMethod::HttpLink { .. } => "browser link"@,
        UnsubscribeMethod::BodyLink { .. } => "body link"@,
        UnsubscribeMethod::Unavailable => "none"@,
    }
}

/// The short name of an unsubscribe method.
pub fn unsubscribe_method_label(method: &UnsubscribeMethod) -> (r: &'static str)
    ensures
        r@ == method_label(*method),
{
    match method {
        UnsubscribeMethod::OneClick { .. } => "one-click",
        UnsubscribeMethod::Mailto { .. } => "mailto",
        UnsubscribeMethod::HttpLink { .. } => "browser link",
        UnsubscribeMethod::BodyLink { .. } => "body link",
        UnsubscribeMethod::Unavailable => "none",
    }
}

/// The banner offering to unsubscribe, if there is a way to.
pub open spec fn banner_label(m: UnsubscribeMethod) -> Option<Seq<char>> {
    match m {
        UnsubscribeMethod::OneClick { .. } => Some("One-click unsubscribe"@),
        UnsubscribeMethod::HttpLink { .. } => Some("Open unsubscribe page"@),
        UnsubscribeMethod::BodyLink { .. } => Some("Open unsubscribe page"@),
        UnsubscribeMethod::Mailto { .. } => Some("Email unsubscribe"@),
        UnsubscribeMethod::Unavailable => None,
    }
}

/// The banner offering to unsubscribe, if there is a way to.
pub fn unsubscribe_banner_label(method: &UnsubscribeMethod) -> (r: Option<&'static str>)
    ensures
        match banner_label(*method) {
            Some(l) => r matches Some(s) && s@ == l,
            None => r is None,
        },
{
    match method {
        UnsubscribeMethod::OneClick { .. } => Some("One-click unsubscribe"),
        UnsubscribeMethod::HttpLink { .. } | UnsubscribeMethod::BodyLink { .. } => Some(
            "Open unsubscribe page",
        ),
        UnsubscribeMethod::Mailto { .. } => Some("Email unsubscribe"),
        UnsubscribeMethod::Unavailable => None,
    }
}

// ---------------------------------------------------------------------
// Bulk actions
// ---------------------------------------------------------------------

/// `"message"` for one, `"messages"` otherwise.
pub open spec fn messages_word(count: nat) -> Seq<char> {
    if count == 1 {
        "message"@
    } else {
        "messages"@
    }
}

/// The noun for `count` messages.
pub fn pluralize_messages(count: usize) -> (r: &'static str)
    ensures
        r@ == messages_word(count as nat),
{
    if count == 1 {
        "message"
    } else {
        "messages"
    }
}

/// The confirmation text of a bulk action.
pub open spec fn bulk_detail(verb: Seq<char>, count: nat) -> Seq<char> {
    "You are about to "@ + verb + " these "@ + decimal(count) + " "@ + messages_word(count) + "."@
}

/// The confirmation text of a bulk action on `count` messages.
pub fn bulk_message_detail(verb: &str, count: usize) -> (r: String)
    ensures
        r@ == bulk_detail(verb@, count as nat),
{
    let head = concat3("You are about to ", verb, " these ");
    let n = u64_to_decimal(count as u64);
    let tail = concat3(" ", pluralize_messages(count), ".");
    concat3(head.as_str(), n.as_str(), tail.as_str())
}


// ---------------------------------------------------------------------
// Remote content and browser documents
// ---------------------------------------------------------------------

/// Whether `pattern` compiles as a `regex` pattern and, if it does,
/// whether it matches somewhere in `haystack`; `None` where it does not
/// compile.
pub uninterp spec fn regex_match(pattern: Seq<char>, haystack: Seq<char>) -> Option<bool>;

/// `regex::Regex::new(pattern)` followed by `Regex::is_match(haystack)`.
/// The result is named (`regex_match`): it depends on the pattern and the
/// haystack alone.
#[verifier::external_body]
fn regex_is_match(pattern: &str, haystack: &str) -> (r: Option<bool>)
    ensures
        r == regex_match(pattern@, haystack@),
{
    match regex::Regex::new(pattern) {
        Ok(re) => Some(re.is_match(haystack)),
        Err(_) => None,
    }
}

/// An `<img>` tag whose `src` is an `http` or `https` URL, in any case,
/// across lines.
pub const REMOTE_IMAGE_PATTERN: &'static str = "(?is)<img\\b[^>]*\\bsrc\\s*=\\s*[\"']https?://[^\"']+[\"']";

/// Whether an HTML body refers to a remote image.
pub fn html_has_remote_content(html: &str) -> (b: bool)
    ensures
        b == (regex_match(REMOTE_IMAGE_PATTERN@, html@) == Some(true)),
{
    match regex_is_match(REMOTE_IMAGE_PATTERN, html) {
        Some(found) => found,
        None => false,
    }
}

/// The entity `htmlescape` writes for a character, if it replaces it.
pub open spec fn minimal_entity(c: char) -> Option<Seq<char>> {
    if c == '"' {
        Some("&quot;"@)
    } else if c == '&' {
        Some("&amp;"@)
    } else if c == '\'' {
        Some("&#x27;"@)
    } else if c == '<' {
        Some("&lt;"@)
    } else if c == '>' {
        Some("&gt;"@)
    } else {
        None
    }
}

/// A text with `"`, `&`, `'`, `<` and `>` replaced by their entities.
pub open spec fn minimal_escape(s: Seq<char>) -> Seq<char>
    decreases s.len(),
{
    if s.len() == 0 {
        s
    } else {
        minimal_escape(s.drop_last()) + match minimal_entity(s.last()) {
            Some(e) => e,
            None => seq![s.last()],
        }
    }
}

/// `htmlescape::encode_minimal`: each `"`, `&`, `'`, `<` and `>` replaced
/// by its entity, every other character kept.
#[verifier::external_body]
fn encode_minimal(text: &str) -> (r: String)
    ensures
        r@ == minimal_escape(text@),
{
    htmlescape::encode_minimal(text)
}

/// The document head up to the text of a plain-text message.
pub const BROWSER_DOCUMENT_HEAD: &'static str = "<!doctype html><html><head><meta charset=\"utf-8\"><title>mxr message</title><style>body{margin:2rem;font:16px/1.5 ui-monospace,SFMono-Regular,Menlo,Consolas,monospace;background:#fafafa;color:#111;}pre{white-space:pre-wrap;word-break:break-word;}</style></head><body><pre>";

/// The document tail after the text.
pub const BROWSER_DOCUMENT_TAIL: &'static str = "</pre></body></html>";

/// A plain-text message as an HTML page: the escaped text, preformatted.
pub fn render_plain_text_browser_document(text: &str) -> (r: String)
    ensures
        r@ == BROWSER_DOCUMENT_HEAD@ + minimal_escape(text@) + BROWSER_DOCUMENT_TAIL@,
{
    let escaped = encode_minimal(text);
    concat3(BROWSER_DOCUMENT_HEAD, escaped.as_str(), BROWSER_DOCUMENT_TAIL)
}


// ---------------------------------------------------------------------
// Previews, attachments and the browser document
// ---------------------------------------------------------------------

/// The preview the list shows for a message: its snippet, unless it is
/// blank.
pub fn envelope_preview(envelope: &Envelope) -> (r: Option<String>)
    ensures
        is_blank(envelope.snippet@) ==> r is None,
        !is_blank(envelope.snippet@) ==> r == Some(envelope.snippet),
{
    if blank(envelope.snippet.as_str()) {
        None
    } else {
        Some(envelope.snippet.clone())
    }
}

/// How a part is meant to be shown, as its `Content-Disposition` says.
#[derive(Debug, Clone, Copy, PartialEq, Eq, Structural)]
pub enum AttachmentDisposition {
    Inline,
    Attachment,
}

/// What the message view knows of an attached part.
#[derive(Debug, Clone, PartialEq, Eq)]
pub struct AttachmentMeta {
    pub filename: String,
    pub size_bytes: u64,
    pub disposition: AttachmentDisposition,
    /// The `Content-ID` an HTML body refers to the part by.
    pub content_id: Option<String>,
    /// The `Content-Location` an HTML body refers to the part by.
    pub content_location: Option<String>,
}

impl AttachmentMeta {
    /// A copy of the part's description.
    pub fn duplicate(&self) -> (r: Self)
        ensures
            r == *self,
    {
        let content_id = match &self.content_id {
            Some(v) => Some(v.clone()),
            None => None,
        };
        let content_location = match &self.content_location {
            Some(v) => Some(v.clone()),
            None => None,
        };
        AttachmentMeta {
            filename: self.filename.clone(),
            size_bytes: self.size_bytes,
            disposition: self.disposition,
            content_id,
            content_location,
        }
    }
}

/// Whether a part belongs to the body rather than the attachment list:
/// it is inline, or the HTML can refer to it by id or location.
pub open spec fn inlineish(a: AttachmentMeta) -> bool {
    a.disposition == AttachmentDisposition::Inline || a.content_id is Some || a.content_location
        is Some
}

/// Whether a part belongs to the body rather than the attachment list.
pub fn attachment_is_inlineish(attachment: &AttachmentMeta) -> (b: bool)
    ensures
        b == inlineish(*attachment),
{
    attachment.disposition == AttachmentDisposition::Inline || attachment.content_id.is_some()
        || attachment.content_location.is_some()
}

/// Whether the body shows images of its own.
pub fn body_inline_images(body: &MessageBody) -> (b: bool)
    ensures
        b == exists|i: int| 0 <= i < body.attachments.len() && #[trigger] inlineish(body.attachments@[i]),
{
    let mut i: usize = 0;
    while i < body.attachments.len()
        invariant
            i <= body.attachments.len(),
            forall|j: int| 0 <= j < i ==> !#[trigger] inlineish(body.attachments@[j]),
        decreases body.attachments.len() - i,
    {
        if attachment_is_inlineish(&body.attachments[i]) {
            return true;
        }
        i = i + 1;
    }
    false
}

/// The parts with (`want`) or without (`!want`) the inline look, in order.
pub open spec fn parts_where(parts: Seq<AttachmentMeta>, want: bool) -> Seq<AttachmentMeta>
    decreases parts.len(),
{
    if parts.len() == 0 {
        parts
    } else {
        let before = parts_where(parts.drop_last(), want);
        if inlineish(parts.last()) == want {
            before.push(parts.last())
        } else {
            before
        }
    }
}

fn collect_parts(parts: &Vec<AttachmentMeta>, want: bool, out: &mut Vec<AttachmentMeta>)
    ensures
        final(out)@ == old(out)@ + parts_where(parts@, want),
{
    let ghost start = out@;
    let mut i: usize = 0;
    while i < parts.len()
        invariant
            i <= parts.len(),
            out@ == start + parts_where(parts@.take(i as int), want),
        decreases parts.len() - i,
    {
        let ghost t = parts@.take(i as int + 1);
        assert(t.drop_last() =~= parts@.take(i as int));
        assert(t.last() == parts@[i as int]);
        if attachment_is_inlineish(&parts[i]) == want {
            out.push(parts[i].duplicate());
        }
        i = i + 1;
        assert(out@ =~= start + parts_where(parts@.take(i as int), want));
    }
    assert(parts@.take(parts.len() as int) =~= parts@);
}

/// The attachment panel's order: the real attachments first, then the
/// parts that belong to the body, each group in message order.
pub fn sorted_attachment_panel_attachments(body: &MessageBody) -> (r: Vec<AttachmentMeta>)
    ensures
        r@ == parts_where(body.attachments@, false) + parts_where(body.attachments@, true),
{
    let mut out: Vec<AttachmentMeta> = Vec::new();
    collect_parts(&body.attachments, false, &mut out);
    collect_parts(&body.attachments, true, &mut out);
    assert(out@ =~= parts_where(body.attachments@, false) + parts_where(body.attachments@, true));
    out
}

/// A part as the message view lists it.
#[derive(Debug, Clone, PartialEq, Eq)]
pub struct AttachmentSummary {
    pub filename: String,
    pub size_bytes: u64,
}

/// The parts of a message as the message view lists them, from its
/// fetched body; none while the body is not fetched.
pub fn attachment_summaries_for_envelope(
    body_cache: &HashMap<MessageId, MessageBody>,
    envelope: &Envelope,
) -> (r: Vec<AttachmentSummary>)
    ensures
        body_cache@.contains_key(envelope.id) ==> {
            let parts = body_cache@[envelope.id].attachments@;
            &&& r.len() == parts.len()
            &&& forall|i: int|
                0 <= i < parts.len() ==> (#[trigger] r@[i]).filename == parts[i].filename
                    && r@[i].size_bytes == parts[i].size_bytes
        },
        !body_cache@.contains_key(envelope.id) ==> r.len() == 0,
{
    broadcast use vstd::std_specs::hash::group_hash_axioms;

    match body_cache.get(&envelope.id) {
        Some(body) => {
            let mut out: Vec<AttachmentSummary> = Vec::new();
            let mut i: usize = 0;
            while i < body.attachments.len()
                invariant
                    i <= body.attachments.len(),
                    out.len() == i,
                    forall|j: int|
                        0 <= j < i ==> (#[trigger] out@[j]).filename == body.attachments@[j].filename
                            && out@[j].size_bytes == body.attachments@[j].size_bytes,
                decreases body.attachments.len() - i,
            {
                let a = &body.attachments[i];
                out.push(AttachmentSummary { filename: a.filename.clone(), size_bytes: a.size_bytes });
                i = i + 1;
            }
            out
        },
        None => Vec::new(),
    }
}

/// The page a message opens as in a browser: its HTML; else its plain
/// text as a page; else the readable summary of its body (as the mail
/// parser makes it, handed in) as a page; none without any of them.
pub fn browser_document(body: &MessageBody, readable_summary: Option<String>) -> (r: Option<String>)
    ensures
        match body.text_html {
            Some(h) => r == Some(h),
            None => match body.text_plain {
                Some(p) => r matches Some(d) && d@ == BROWSER_DOCUMENT_HEAD@ + minimal_escape(p@)
                    + BROWSER_DOCUMENT_TAIL@,
                None => match readable_summary {
                    Some(t) => r matches Some(d) && d@ == BROWSER_DOCUMENT_HEAD@ + minimal_escape(t@)
                        + BROWSER_DOCUMENT_TAIL@,
                    None => r is None,
                },
            },
        },
{
    match &body.text_html {
        Some(h) => Some(h.clone()),
        None => match &body.text_plain {
            Some(p) => Some(render_plain_text_browser_document(p.as_str())),
            None => match &readable_summary {
                Some(t) => Some(render_plain_text_browser_document(t.as_str())),
                None => None,
            },
        },
    }
}

/// Which body the message view shows, before it is rendered.
pub enum BodyChoice {
    /// Show `raw`, taken from `source`, in `mode`; `reader` says whether
    /// the reader cleans it first.
    Ready { raw: String, source: BodySource, mode: BodyViewMode, reader: bool },
    /// The body is on its way.
    Loading,
    /// There is no body to show.
    Empty,
}

/// What the message view shows for a message whose body is `body` (when
/// fetched). In the HTML view the HTML is shown as it is, else the plain
/// text; otherwise the plain text, else the HTML, else the readable
/// summary the mail parser makes (handed in), as text through the reader
/// when it is on. Without a fetched body the view waits while a fetch is
/// in flight and is empty otherwise.
pub open spec fn body_choice(
    body: Option<MessageBody>,
    html_view: bool,
    reader_mode: bool,
    in_flight: bool,
    summary: Option<String>,
) -> BodyChoice {
    match body {
        None => if in_flight {
            BodyChoice::Loading
        } else {
            BodyChoice::Empty
        },
        Some(b) => if html_view && b.text_html is Some {
            BodyChoice::Ready {
                raw: b.text_html->0,
                source: BodySource::Html,
                mode: BodyViewMode::Html,
                reader: false,
            }
        } else if html_view && b.text_plain is Some {
            BodyChoice::Ready {
                raw: b.text_plain->0,
                source: BodySource::Plain,
                mode: BodyViewMode::Html,
                reader: false,
            }
        } else if b.text_plain is Some {
            BodyChoice::Ready {
                raw: b.text_plain->0,
                source: BodySource::Plain,
                mode: BodyViewMode::Text,
                reader: reader_mode,
            }
        } else if b.text_html is Some {
            BodyChoice::Ready {
                raw: b.text_html->0,
                source: BodySource::Html,
                mode: BodyViewMode::Text,
                reader: reader_mode,
            }
        } else if summary is Some {
            BodyChoice::Ready {
                raw: summary->0,
                source: BodySource::Fallback,
                mode: BodyViewMode::Text,
                reader: reader_mode,
            }
        } else {
            BodyChoice::Empty
        },
    }
}

/// Which body the message view shows.
pub fn choose_body_view(
    body: Option<&MessageBody>,
    html_view: bool,
    reader_mode: bool,
    in_flight: bool,
    summary: Option<String>,
) -> (r: BodyChoice)
    ensures
        r == body_choice(
            match body {
                Some(b) => Some(*b),
                None => None,
            },
            html_view,
            reader_mode,
            in_flight,
            summary,
        ),
{
    let b = match body {
        None => {
            return if in_flight {
                BodyChoice::Loading
            } else {
                BodyChoice::Empty
            };
        },
        Some(b) => b,
    };
    if html_view {
        if let Some(h) = &b.text_html {
            return BodyChoice::Ready {
                raw: h.clone(),
                source: BodySource::Html,
                mode: BodyViewMode::Html,
                reader: false,
            };
        }
        if let Some(p) = &b.text_plain {
            return BodyChoice::Ready {
                raw: p.clone(),
                source: BodySource::Plain,
                mode: BodyViewMode::Html,
                reader: false,
            };
        }
    }
    if let Some(p) = &b.text_plain {
        return BodyChoice::Ready {
            raw: p.clone(),
            source: BodySource::Plain,
            mode: BodyViewMode::Text,
            reader: reader_mode,
        };
    }
    if let Some(h) = &b.text_html {
        return BodyChoice::Ready {
            raw: h.clone(),
            source: BodySource::Html,
            mode: BodyViewMode::Text,
            reader: reader_mode,
        };
    }
    match summary {
        Some(t) => BodyChoice::Ready {
            raw: t,
            source: BodySource::Fallback,
            mode: BodyViewMode::Text,
            reader: reader_mode,
        },
        None => BodyChoice::Empty,
    }
}

/// In the text view a shown body goes through the reader exactly when the
/// reading view is on, whatever its source; in the HTML view the HTML or
/// the plain text is shown as it is.
pub proof fn law_reader_follows_reading_view(
    body: Option<MessageBody>,
    html_view: bool,
    reader_mode: bool,
    in_flight: bool,
    summary: Option<String>,
)
    ensures
        body_choice(body, html_view, reader_mode, in_flight, summary) matches BodyChoice::Ready {
            mode,
            reader,
            ..
        } ==> (mode == BodyViewMode::Text ==> reader == reader_mode) && (mode == BodyViewMode::Html
            ==> !reader),
        !html_view ==> !(body_choice(body, html_view, reader_mode, in_flight, summary) matches BodyChoice::Ready {
            mode: BodyViewMode::Html,
            ..
        }),
{
}

/// Which part of a fetched body is shown: in the HTML view its HTML, else
/// its plain text; in the text view its plain text, else its HTML, else
/// the readable summary; nothing at all leaves the view empty. Without a
/// fetched body the view waits exactly while a fetch is in flight.
pub proof fn law_body_source_preference(
    body: Option<MessageBody>,
    html_view: bool,
    reader_mode: bool,
    in_flight: bool,
    summary: Option<String>,
)
    ensures
        ({
            let r = body_choice(body, html_view, reader_mode, in_flight, summary);
            match body {
                None => (r is Loading <==> in_flight) && (r is Empty <==> !in_flight),
                Some(b) => {
                    &&& (html_view && b.text_html is Some) ==> (r matches BodyChoice::Ready { raw, source, .. }
                        && raw == b.text_html->0 && source == BodySource::Html)
                    &&& (b.text_plain is Some && !(html_view && b.text_html is Some)) ==> (r matches BodyChoice::Ready {
                        raw,
                        source,
                        ..
                    } && raw == b.text_plain->0 && source == BodySource::Plain)
                    &&& (b.text_plain is None && b.text_html is Some) ==> (r matches BodyChoice::Ready { raw, source, .. }
                        && raw == b.text_html->0 && source == BodySource::Html)
                    &&& (b.text_plain is None && b.text_html is None) ==> match summary {
                        Some(t) => r matches BodyChoice::Ready { raw, source, .. } && raw == t && source
                            == BodySource::Fallback,
                        None => r is Empty,
                    }
                },
            }
        }),
{
}

} // verus!
