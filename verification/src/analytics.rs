//! The analytics screen: the cycle of its views, the filter settings of
//! each view, the filter modal that edits them, and the time window of
//! the yearly summary.
use vstd::prelude::*;
use crate::action::AnalyticsView;
use crate::clock::{
    utc_now, utc_timestamp, utc_datetime_timestamp, as_int_option, year_of, is_year_of,
    year_of_timestamp, lemma_year_length, valid_datetime, MIN_YEAR, MAX_YEAR,
    MIN_UTC_TIMESTAMP, MAX_UTC_TIMESTAMP,
};
use crate::text::{
    lemma_decimal_clean, lemma_signed_decimal_clean, lemma_parse_decimal,
    lemma_parse_signed_decimal, lemma_trim_noop, lemma_lowercase_noop, ascii_lowercase_str, blank, concat2, concat3, i64_to_decimal, parse_i32_str, parse_u32_str,
    str_eq, trim_str, u64_to_decimal, owned, ascii_lowercase, decimal, parse_i32_spec,
    parse_unsigned, signed_decimal, trim,
};

verus! {

broadcast use vstd::string::group_string_axioms;

// ---------------------------------------------------------------------
// The view cycle
// ---------------------------------------------------------------------

/// Position of a view in the cycle.
pub open spec fn view_index(v: AnalyticsView) -> int {
    match v {
        AnalyticsView::Storage => 0,
        AnalyticsView::StaleThreads => 1,
        AnalyticsView::Contacts => 2,
        AnalyticsView::CadenceDrift => 3,
        AnalyticsView::ResponseTime => 4,
        AnalyticsView::Subscriptions => 5,
        AnalyticsView::Wrapped => 6,
    }
}

/// The view at a position of the cycle (taken modulo its length).
pub open spec fn view_at(i: int) -> AnalyticsView {
    let k = i % 7;
    if k == 0 {
        AnalyticsView::Storage
    } else if k == 1 {
        AnalyticsView::StaleThreads
    } else if k == 2 {
        AnalyticsView::Contacts
    } else if k == 3 {
        AnalyticsView::CadenceDrift
    } else if k == 4 {
        AnalyticsView::ResponseTime
    } else if k == 5 {
        AnalyticsView::Subscriptions
    } else {
        AnalyticsView::Wrapped
    }
}

/// The view after `view` in the cycle.
pub fn next_analytics_view(view: AnalyticsView) -> (v: AnalyticsView)
    ensures
        v == view_at(view_index(view) + 1),
{
    match view {
        AnalyticsView::Storage => AnalyticsView::StaleThreads,
        AnalyticsView::StaleThreads => AnalyticsView::Contacts,
        AnalyticsView::Contacts => AnalyticsView::CadenceDrift,
        AnalyticsView::CadenceDrift => AnalyticsView::ResponseTime,
        AnalyticsView::ResponseTime => AnalyticsView::Subscriptions,
        AnalyticsView::Subscriptions => AnalyticsView::Wrapped,
        AnalyticsView::Wrapped => AnalyticsView::Storage,
    }
}

/// The view before `view` in the cycle.
pub fn prev_analytics_view(view: AnalyticsView) -> (v: AnalyticsView)
    ensures
        v == view_at(view_index(view) + 6),
{
    match view {
        AnalyticsView::Storage => AnalyticsView::Wrapped,
        AnalyticsView::StaleThreads => AnalyticsView::Storage,
        AnalyticsView::Contacts => AnalyticsView::StaleThreads,
        AnalyticsView::CadenceDrift => AnalyticsView::Contacts,
        AnalyticsView::ResponseTime => AnalyticsView::CadenceDrift,
        AnalyticsView::Subscriptions => AnalyticsView::ResponseTime,
        AnalyticsView::Wrapped => AnalyticsView::Subscriptions,
    }
}

/// Stepping to the next view and back (or back and then on) returns to
/// the same view, and seven steps visit every view once.
pub proof fn law_view_cycle(v: AnalyticsView, w: AnalyticsView)
    ensures
        view_at(view_index(view_at(view_index(v) + 1)) + 6) == v,
        view_at(view_index(view_at(view_index(v) + 6)) + 1) == v,
        view_at(view_index(v)) == v,
        view_index(v) == view_index(w) ==> v == w,
        0 <= view_index(v) < 7,
{
}

// ---------------------------------------------------------------------
// Filter settings
// ---------------------------------------------------------------------

/// What the storage view lists.
#[derive(Debug, Clone, Copy, PartialEq, Eq, Structural)]
pub enum StorageMode {
    Breakdown,
    LargestMessages,
}

/// How the storage breakdown groups messages.
#[derive(Debug, Clone, Copy, PartialEq, Eq, Structural)]
pub enum StorageGroupBy {
    Sender,
    Mimetype,
    Label,
}

/// Whose reply a stale thread waits for.
#[derive(Debug, Clone, Copy, PartialEq, Eq, Structural)]
pub enum StaleBallInCourt {
    Mine,
    Theirs,
}

/// What the contacts view lists.
#[derive(Debug, Clone, Copy, PartialEq, Eq, Structural)]
pub enum ContactsMode {
    Asymmetry,
    Decay,
}

/// Whose replies the response-time view measures.
#[derive(Debug, Clone, Copy, PartialEq, Eq, Structural)]
pub enum ResponseTimeDirection {
    IReplied,
    TheyReplied,
}

/// The period the yearly summary covers.
#[derive(Debug, Clone, Copy, PartialEq, Eq, Structural)]
pub enum WrappedWindow {
    Ytd,
    Year(i32),
    SinceDays(u32),
}

/// The analytics settings that the filter modal reads and writes.
pub struct AnalyticsState {
    pub view: AnalyticsView,
    pub storage_mode: StorageMode,
    pub storage_group_by: StorageGroupBy,
    pub largest_limit: u32,
    pub largest_since_days: Option<u32>,
    pub stale_perspective: StaleBallInCourt,
    pub stale_older_than_days: u32,
    pub stale_within_days: u32,
    pub contacts_mode: ContactsMode,
    pub asymmetry_min_inbound: u32,
    pub decay_threshold_days: u32,
    pub decay_max_lookback_days: u32,
    pub response_time_direction: ResponseTimeDirection,
    pub response_time_counterparty: Option<String>,
    pub response_time_since_days: Option<u32>,
    pub subscriptions_limit: u32,
    pub subscriptions_rank: bool,
    pub wrapped_window: WrappedWindow,
    /// Whether the active view is due to be fetched again.
    pub refresh_pending: bool,
}

/// One field of the filter modal: a label, the typed value and, for a
/// choice, the values to choose from.
pub struct AnalyticsFilterField {
    pub label: String,
    pub value: String,
    pub options: Vec<String>,
}

/// The filter modal of the analytics screen.
pub struct AnalyticsFilterModalState {
    pub view: AnalyticsView,
    pub active_field: usize,
    pub fields: Vec<AnalyticsFilterField>,
    pub validation_error: Option<String>,
}

/// A field as plain text: label, value, options.
pub type FieldView = (Seq<char>, Seq<char>, Seq<Seq<char>>);

impl AnalyticsFilterField {
    pub open spec fn field_view(&self) -> FieldView {
        (self.label@, self.value@, self.options@.map_values(|o: String| o@))
    }
}

/// The fields of a modal as plain text.
pub open spec fn fields_view(fields: Seq<AnalyticsFilterField>) -> Seq<FieldView> {
    fields.map_values(|f: AnalyticsFilterField| f.field_view())
}

/// A free-text field.
pub open spec fn text_field(label: Seq<char>, value: Seq<char>) -> FieldView {
    (label, value, Seq::empty())
}

/// A field choosing among `options`.
pub open spec fn select_field(label: Seq<char>, value: Seq<char>, options: Seq<Seq<char>>) -> FieldView {
    (label, value, options)
}

/// An optional number as the modal shows it: blank when absent.
pub open spec fn optional_decimal(n: Option<u32>) -> Seq<char> {
    match n {
        Some(d) => decimal(d as nat),
        None => Seq::empty(),
    }
}

pub open spec fn group_by_name(g: StorageGroupBy) -> Seq<char> {
    match g {
        StorageGroupBy::Sender => "sender"@,
        StorageGroupBy::Mimetype => "mimetype"@,
        StorageGroupBy::Label => "label"@,
    }
}

pub open spec fn perspective_name(p: StaleBallInCourt) -> Seq<char> {
    match p {
        StaleBallInCourt::Mine => "mine"@,
        StaleBallInCourt::Theirs => "theirs"@,
    }
}

pub open spec fn direction_name(d: ResponseTimeDirection) -> Seq<char> {
    match d {
        ResponseTimeDirection::IReplied => "i_replied"@,
        ResponseTimeDirection::TheyReplied => "they_replied"@,
    }
}

pub open spec fn bool_name(b: bool) -> Seq<char> {
    if b {
        "true"@
    } else {
        "false"@
    }
}

pub open spec fn window_name(w: WrappedWindow) -> Seq<char> {
    match w {
        WrappedWindow::Ytd => "ytd"@,
        WrappedWindow::Year(_) => "year"@,
        WrappedWindow::SinceDays(_) => "since_days"@,
    }
}

/// The fields the filter modal shows for the current view, filled with
/// the current settings; `year` is the current calendar year, shown when
/// the summary window is not a given year.
pub open spec fn modal_fields(s: AnalyticsState, year: i32) -> Seq<FieldView> {
    match s.view {
        AnalyticsView::Storage => match s.storage_mode {
            StorageMode::Breakdown => seq![
                select_field(
                    "group_by"@,
                    group_by_name(s.storage_group_by),
                    seq!["sender"@, "mimetype"@, "label"@],
                ),
            ],
            StorageMode::LargestMessages => seq![
                text_field("limit"@, decimal(s.largest_limit as nat)),
                text_field("since_days (blank = all)"@, optional_decimal(s.largest_since_days)),
            ],
        },
        AnalyticsView::StaleThreads => seq![
            select_field(
                "perspective"@,
                perspective_name(s.stale_perspective),
                seq!["mine"@, "theirs"@],
            ),
            text_field("older_than_days"@, decimal(s.stale_older_than_days as nat)),
            text_field("within_days"@, decimal(s.stale_within_days as nat)),
        ],
        AnalyticsView::Contacts => match s.contacts_mode {
            ContactsMode::Asymmetry => seq![
                text_field("min_inbound"@, decimal(s.asymmetry_min_inbound as nat)),
            ],
            ContactsMode::Decay => seq![
                text_field("threshold_days"@, decimal(s.decay_threshold_days as nat)),
                text_field("max_lookback_days"@, decimal(s.decay_max_lookback_days as nat)),
            ],
        },
        AnalyticsView::CadenceDrift => seq![],
        AnalyticsView::ResponseTime => seq![
            select_field(
                "direction"@,
                direction_name(s.response_time_direction),
                seq!["i_replied"@, "they_replied"@],
            ),
            text_field(
                "counterparty (blank = all)"@,
                match s.response_time_counterparty {
                    Some(c) => c@,
                    None => Seq::empty(),
                },
            ),
            text_field("since_days (blank = all)"@, optional_decimal(s.response_time_since_days)),
        ],
        AnalyticsView::Subscriptions => seq![
            text_field("limit"@, decimal(s.subscriptions_limit as nat)),
            select_field("rank"@, bool_name(s.subscriptions_rank), seq!["true"@, "false"@]),
        ],
        AnalyticsView::Wrapped => seq![
            select_field(
                "window"@,
                window_name(s.wrapped_window),
                seq!["ytd"@, "year"@, "since_days"@],
            ),
            text_field(
                "year (used when window=year)"@,
                match s.wrapped_window {
                    WrappedWindow::Year(y) => signed_decimal(y as int),
                    _ => signed_decimal(year as int),
                },
            ),
            text_field(
                "days (used when window=since_days)"@,
                match s.wrapped_window {
                    WrappedWindow::SinceDays(d) => decimal(d as nat),
                    _ => "90"@,
                },
            ),
        ],
    }
}

/// A free-text field of the filter modal.
pub fn text_filter_field(label: &str, value: String) -> (f: AnalyticsFilterField)
    ensures
        f.field_view() == text_field(label@, value@),
{
    let f = AnalyticsFilterField { label: owned(label), value, options: Vec::new() };
    assert(f.options@.map_values(|o: String| o@) =~= Seq::<Seq<char>>::empty());
    f
}

/// A choice field of the filter modal.
pub fn select_filter_field(label: &str, value: String, options: &[&str]) -> (f: AnalyticsFilterField)
    ensures
        f.field_view() == select_field(label@, value@, options@.map_values(|o: &str| o@)),
{
    let mut opts: Vec<String> = Vec::new();
    let mut i: usize = 0;
    while i < options.len()
        invariant
            i <= options.len(),
            opts@.len() == i,
            forall|k: int| 0 <= k < i ==> (#[trigger] opts@[k])@ == options@[k]@,
        decreases options.len() - i,
    {
        let o = owned(options[i]);
        opts.push(o);
        i = i + 1;
    }
    assert(opts@.map_values(|o: String| o@) =~= options@.map_values(|o: &str| o@));
    AnalyticsFilterField { label: owned(label), value, options: opts }
}

fn optional_u32_text(n: Option<u32>) -> (s: String)
    ensures
        s@ == optional_decimal(n),
{
    match n {
        Some(d) => u64_to_decimal(d as u64),
        None => String::new(),
    }
}

fn u32_text(n: u32) -> (s: String)
    ensures
        s@ == decimal(n as nat),
{
    u64_to_decimal(n as u64)
}

fn i32_text(n: i32) -> (s: String)
    ensures
        s@ == signed_decimal(n as int),
{
    i64_to_decimal(n as i64)
}

/// The filter modal for the current view, given the current calendar
/// year: the fields filled with the current settings, the first one
/// focused, no error.
pub fn filter_modal_for_view_in_year(state: &AnalyticsState, year: i32) -> (m: AnalyticsFilterModalState)
    ensures
        m.view == state.view,
        m.active_field == 0,
        fields_view(m.fields@) == modal_fields(*state, year),
        m.validation_error is None,
{
    let mut fields: Vec<AnalyticsFilterField> = Vec::new();
    match state.view {
        AnalyticsView::Storage => match state.storage_mode {
            StorageMode::Breakdown => {
                let value = match state.storage_group_by {
                    StorageGroupBy::Sender => owned("sender"),
                    StorageGroupBy::Mimetype => owned("mimetype"),
                    StorageGroupBy::Label => owned("label"),
                };
                let opts: [&str; 3] = ["sender", "mimetype", "label"];
                let f = select_filter_field("group_by", value, &opts);
                assert(opts@.map_values(|o: &str| o@) =~= seq!["sender"@, "mimetype"@, "label"@]);
                fields.push(f);
            },
            StorageMode::LargestMessages => {
                fields.push(text_filter_field("limit", u32_text(state.largest_limit)));
                fields.push(
                    text_filter_field(
                        "since_days (blank = all)",
                        optional_u32_text(state.largest_since_days),
                    ),
                );
            },
        },
        AnalyticsView::StaleThreads => {
            let value = match state.stale_perspective {
                StaleBallInCourt::Mine => owned("mine"),
                StaleBallInCourt::Theirs => owned("theirs"),
            };
            let opts: [&str; 2] = ["mine", "theirs"];
            let f = select_filter_field("perspective", value, &opts);
            assert(opts@.map_values(|o: &str| o@) =~= seq!["mine"@, "theirs"@]);
            fields.push(f);
            fields.push(text_filter_field("older_than_days", u32_text(state.stale_older_than_days)));
            fields.push(text_filter_field("within_days", u32_text(state.stale_within_days)));
        },
        AnalyticsView::Contacts => match state.contacts_mode {
            ContactsMode::Asymmetry => {
                fields.push(text_filter_field("min_inbound", u32_text(state.asymmetry_min_inbound)));
            },
            ContactsMode::Decay => {
                fields.push(text_filter_field("threshold_days", u32_text(state.decay_threshold_days)));
                fields.push(
                    text_filter_field("max_lookback_days", u32_text(state.decay_max_lookback_days)),
                );
            },
        },
        AnalyticsView::CadenceDrift => {},
        AnalyticsView::ResponseTime => {
            let value = match state.response_time_direction {
                ResponseTimeDirection::IReplied => owned("i_replied"),
                ResponseTimeDirection::TheyReplied => owned("they_replied"),
            };
            let opts: [&str; 2] = ["i_replied", "they_replied"];
            let f = select_filter_field("direction", value, &opts);
            assert(opts@.map_values(|o: &str| o@) =~= seq!["i_replied"@, "they_replied"@]);
            fields.push(f);
            let cp = match &state.response_time_counterparty {
                Some(c) => c.clone(),
                None => String::new(),
            };
            fields.push(text_filter_field("counterparty (blank = all)", cp));
            fields.push(
                text_filter_field(
                    "since_days (blank = all)",
                    optional_u32_text(state.response_time_since_days),
                ),
            );
        },
        AnalyticsView::Subscriptions => {
            fields.push(text_filter_field("limit", u32_text(state.subscriptions_limit)));
            let value = if state.subscriptions_rank {
                owned("true")
            } else {
                owned("false")
            };
            let opts: [&str; 2] = ["true", "false"];
            let f = select_filter_field("rank", value, &opts);
            assert(opts@.map_values(|o: &str| o@) =~= seq!["true"@, "false"@]);
            fields.push(f);
        },
        AnalyticsView::Wrapped => {
            let value = match state.wrapped_window {
                WrappedWindow::Ytd => owned("ytd"),
                WrappedWindow::Year(_) => owned("year"),
                WrappedWindow::SinceDays(_) => owned("since_days"),
            };
            let opts: [&str; 3] = ["ytd", "year", "since_days"];
            let f = select_filter_field("window", value, &opts);
            assert(opts@.map_values(|o: &str| o@) =~= seq!["ytd"@, "year"@, "since_days"@]);
            fields.push(f);
            let year_text = match state.wrapped_window {
                WrappedWindow::Year(y) => i32_text(y),
                _ => i32_text(year),
            };
            fields.push(text_filter_field("year (used when window=year)", year_text));
            let days_text = match state.wrapped_window {
                WrappedWindow::SinceDays(d) => u32_text(d),
                _ => owned("90"),
            };
            fields.push(text_filter_field("days (used when window=since_days)", days_text));
        },
    }
    assert(fields_view(fields@) =~= modal_fields(*state, year));
    AnalyticsFilterModalState { view: state.view, active_field: 0, fields, validation_error: None }
}

/// The filter modal for the current view, with the current year read
/// from the clock.
pub fn filter_modal_for_view(state: &AnalyticsState) -> (m: AnalyticsFilterModalState)
    ensures
        m.view == state.view,
        m.active_field == 0,
        exists|now: i64|
            crate::clock::clock_reading(now as int) && fields_view(m.fields@) == modal_fields(
                *state,
                #[trigger] year_of(now as int) as i32,
            ),
        m.validation_error is None,
{
    let (now, year) = utc_now();
    filter_modal_for_view_in_year(state, year)
}


// ---------------------------------------------------------------------
// Reading the modal back
// ---------------------------------------------------------------------

/// The value of field `i`, blank when there is no such field.
pub open spec fn value_at(vals: Seq<Seq<char>>, i: int) -> Seq<char> {
    if 0 <= i < vals.len() {
        vals[i]
    } else {
        Seq::empty()
    }
}

/// A typed choice, compared without surrounding spaces and case.
pub open spec fn choice(text: Seq<char>) -> Seq<char> {
    ascii_lowercase(trim(text))
}

/// A non-negative number typed into a field.
pub open spec fn u32_of(text: Seq<char>) -> Option<u32> {
    match parse_unsigned(trim(text), u32::MAX as nat) {
        Some(n) => Some(n as u32),
        None => None,
    }
}

/// An optional non-negative number: `Some(None)` for a blank field,
/// `None` when the text is not a number.
pub open spec fn optional_u32_of(text: Seq<char>) -> Option<Option<u32>> {
    if trim(text).len() == 0 {
        Some(None)
    } else {
        match u32_of(text) {
            Some(n) => Some(Some(n)),
            None => None,
        }
    }
}

/// A signed number typed into a field.
pub open spec fn i32_of(text: Seq<char>) -> Option<i32> {
    match parse_i32_spec(trim(text)) {
        Some(n) => Some(n as i32),
        None => None,
    }
}

/// The message for a field that must hold a non-negative number.
pub open spec fn not_non_negative(name: Seq<char>) -> Seq<char> {
    name + " must be a non-negative integer"@
}

/// The message for a field that must hold a number.
pub open spec fn not_integer(name: Seq<char>) -> Seq<char> {
    name + " must be an integer"@
}

/// The message for a choice that is not one of its options.
pub open spec fn invalid_choice(kind: Seq<char>, other: Seq<char>) -> Seq<char> {
    "invalid "@ + kind + ": "@ + other
}

/// `r` is an error with message `m`.
pub open spec fn fails_with(r: Result<(), String>, m: Seq<char>) -> bool {
    r matches Err(e) && e@ == m
}

/// `new` is the settings `old` after the modal values `vals` of view
/// `view` were written back, field by field in order, stopping at the
/// first value that does not read; `r` says whether all of them read.
pub open spec fn filters_applied(
    old: AnalyticsState,
    new: AnalyticsState,
    view: AnalyticsView,
    vals: Seq<Seq<char>>,
    r: Result<(), String>,
) -> bool {
    let v0 = value_at(vals, 0);
    let v1 = value_at(vals, 1);
    let v2 = value_at(vals, 2);
    match view {
        AnalyticsView::Storage => match old.storage_mode {
            StorageMode::Breakdown => {
                let c = choice(v0);
                if c == "sender"@ {
                    new == (AnalyticsState { storage_group_by: StorageGroupBy::Sender, ..old }) && r is Ok
                } else if c == "mimetype"@ {
                    new == (AnalyticsState { storage_group_by: StorageGroupBy::Mimetype, ..old }) && r is Ok
                } else if c == "label"@ {
                    new == (AnalyticsState { storage_group_by: StorageGroupBy::Label, ..old }) && r is Ok
                } else {
                    new == old && fails_with(r, invalid_choice("group_by"@, c))
                }
            },
            StorageMode::LargestMessages => match u32_of(v0) {
                None => new == old && fails_with(r, not_non_negative("limit"@)),
                Some(limit) => match optional_u32_of(v1) {
                    None => new == (AnalyticsState { largest_limit: limit, ..old }) && fails_with(
                        r,
                        not_non_negative("since_days"@),
                    ),
                    Some(since) => new == (AnalyticsState {
                        largest_limit: limit,
                        largest_since_days: since,
                        ..old
                    }) && r is Ok,
                },
            },
        },
        AnalyticsView::StaleThreads => {
            let c = choice(v0);
            if c != "mine"@ && c != "theirs"@ {
                new == old && fails_with(r, invalid_choice("perspective"@, c))
            } else {
                let p = if c == "mine"@ { StaleBallInCourt::Mine } else { StaleBallInCourt::Theirs };
                match u32_of(v1) {
                    None => new == (AnalyticsState { stale_perspective: p, ..old }) && fails_with(
                        r,
                        not_non_negative("older_than_days"@),
                    ),
                    Some(older) => match u32_of(v2) {
                        None => new == (AnalyticsState {
                            stale_perspective: p,
                            stale_older_than_days: older,
                            ..old
                        }) && fails_with(r, not_non_negative("within_days"@)),
                        Some(within) => new == (AnalyticsState {
                            stale_perspective: p,
                            stale_older_than_days: older,
                            stale_within_days: within,
                            ..old
                        }) && r is Ok,
                    },
                }
            }
        },
        AnalyticsView::Contacts => match old.contacts_mode {
            ContactsMode::Asymmetry => match u32_of(v0) {
                None => new == old && fails_with(r, not_non_negative("min_inbound"@)),
                Some(n) => new == (AnalyticsState { asymmetry_min_inbound: n, ..old }) && r is Ok,
            },
            ContactsMode::Decay => match u32_of(v0) {
                None => new == old && fails_with(r, not_non_negative("threshold_days"@)),
                Some(t) => match u32_of(v1) {
                    None => new == (AnalyticsState { decay_threshold_days: t, ..old }) && fails_with(
                        r,
                        not_non_negative("max_lookback_days"@),
                    ),
                    Some(l) => new == (AnalyticsState {
                        decay_threshold_days: t,
                        decay_max_lookback_days: l,
                        ..old
                    }) && r is Ok,
                },
            },
        },
        AnalyticsView::CadenceDrift => new == old && r is Ok,
        AnalyticsView::ResponseTime => {
            let c = choice(v0);
            if c != "i_replied"@ && c != "they_replied"@ {
                new == old && fails_with(r, invalid_choice("direction"@, c))
            } else {
                let d = if c == "i_replied"@ {
                    ResponseTimeDirection::IReplied
                } else {
                    ResponseTimeDirection::TheyReplied
                };
                let cp = trim(v1);
                &&& (if cp.len() == 0 {
                    new.response_time_counterparty is None
                } else {
                    new.response_time_counterparty matches Some(x) && x@ == cp
                })
                &&& match optional_u32_of(v2) {
                    None => new == (AnalyticsState {
                        response_time_direction: d,
                        response_time_counterparty: new.response_time_counterparty,
                        ..old
                    }) && fails_with(r, not_non_negative("since_days"@)),
                    Some(since) => new == (AnalyticsState {
                        response_time_direction: d,
                        response_time_counterparty: new.response_time_counterparty,
                        response_time_since_days: since,
                        ..old
                    }) && r is Ok,
                }
            }
        },
        AnalyticsView::Subscriptions => match u32_of(v0) {
            None => new == old && fails_with(r, not_non_negative("limit"@)),
            Some(limit) => {
                let c = choice(v1);
                if c == "true"@ {
                    new == (AnalyticsState { subscriptions_limit: limit, subscriptions_rank: true, ..old })
                        && r is Ok
                } else if c == "false"@ {
                    new == (AnalyticsState { subscriptions_limit: limit, subscriptions_rank: false, ..old })
                        && r is Ok
                } else {
                    new == (AnalyticsState { subscriptions_limit: limit, ..old }) && fails_with(
                        r,
                        invalid_choice("rank"@, c),
                    )
                }
            },
        },
        AnalyticsView::Wrapped => {
            let c = choice(v0);
            match i32_of(v1) {
                None => new == old && fails_with(r, not_integer("year"@)),
                Some(y) => match u32_of(v2) {
                    None => new == old && fails_with(r, not_non_negative("days"@)),
                    Some(d) => if c == "ytd"@ {
                        new == (AnalyticsState { wrapped_window: WrappedWindow::Ytd, ..old }) && r is Ok
                    } else if c == "year"@ {
                        new == (AnalyticsState { wrapped_window: WrappedWindow::Year(y), ..old }) && r is Ok
                    } else if c == "since_days"@ {
                        new == (AnalyticsState { wrapped_window: WrappedWindow::SinceDays(d), ..old })
                            && r is Ok
                    } else {
                        new == old && fails_with(r, invalid_choice("window"@, c))
                    },
                },
            }
        },
    }
}

/// A number typed into the field `name`, without surrounding spaces.
pub fn parse_u32(s: &str, name: &str) -> (r: Result<u32, String>)
    ensures
        match u32_of(s@) {
            Some(n) => r == Ok::<u32, String>(n),
            None => r matches Err(e) && e@ == not_non_negative(name@),
        },
{
    let t = trim_str(s);
    match parse_u32_str(t.as_str()) {
        Some(n) => Ok(n),
        None => Err(concat2(name, " must be a non-negative integer")),
    }
}

/// An optional number typed into the field `name`: blank means none.
pub fn parse_optional_u32(s: &str, name: &str) -> (r: Result<Option<u32>, String>)
    ensures
        match optional_u32_of(s@) {
            Some(n) => r == Ok::<Option<u32>, String>(n),
            None => r matches Err(e) && e@ == not_non_negative(name@),
        },
{
    let t = trim_str(s);
    if t.as_str().is_empty() {
        Ok(None)
    } else {
        match parse_u32_str(t.as_str()) {
            Some(n) => Ok(Some(n)),
            None => Err(concat2(name, " must be a non-negative integer")),
        }
    }
}

/// A signed number typed into the field `name`.
pub fn parse_i32(s: &str, name: &str) -> (r: Result<i32, String>)
    ensures
        match i32_of(s@) {
            Some(n) => r == Ok::<i32, String>(n),
            None => r matches Err(e) && e@ == not_integer(name@),
        },
{
    let t = trim_str(s);
    match parse_i32_str(t.as_str()) {
        Some(n) => Ok(n),
        None => Err(concat2(name, " must be an integer")),
    }
}

/// The value of field `i`, or blank.
fn value_of<'a>(fields: &'a [AnalyticsFilterField], i: usize) -> (v: &'a str)
    ensures
        v@ == value_at(fields@.map_values(|f: AnalyticsFilterField| f.value@), i as int),
{
    if i < fields.len() {
        fields[i].value.as_str()
    } else {
        proof {
            reveal_strlit("");
        }
        ""
    }
}

/// The typed choice of field `i`, trimmed and lower-cased.
fn choice_of(fields: &[AnalyticsFilterField], i: usize) -> (c: String)
    ensures
        c@ == choice(value_at(fields@.map_values(|f: AnalyticsFilterField| f.value@), i as int)),
{
    let t = trim_str(value_of(fields, i));
    ascii_lowercase_str(t.as_str())
}

/// The message for a choice that is not one of its options.
fn invalid_choice_message(kind: &str, other: &str) -> (m: String)
    ensures
        m@ == invalid_choice(kind@, other@),
{
    let mut m = concat3("invalid ", kind, ": ");
    m.append(other);
    m
}

/// Writes the values of the filter modal of `view` back into the
/// settings, field by field in order; the first value that does not read
/// stops the writing and is reported.
pub fn apply_filter_modal_fields(
    state: &mut AnalyticsState,
    view: AnalyticsView,
    fields: &[AnalyticsFilterField],
) -> (r: Result<(), String>)
    ensures
        filters_applied(
            *old(state),
            *final(state),
            view,
            fields@.map_values(|f: AnalyticsFilterField| f.value@),
            r,
        ),
{
    match view {
        AnalyticsView::Storage => match state.storage_mode {
            StorageMode::Breakdown => {
                let c = choice_of(fields, 0);
                if str_eq(c.as_str(), "sender") {
                    state.storage_group_by = StorageGroupBy::Sender;
                } else if str_eq(c.as_str(), "mimetype") {
                    state.storage_group_by = StorageGroupBy::Mimetype;
                } else if str_eq(c.as_str(), "label") {
                    state.storage_group_by = StorageGroupBy::Label;
                } else {
                    return Err(invalid_choice_message("group_by", c.as_str()));
                }
            },
            StorageMode::LargestMessages => {
                state.largest_limit = parse_u32(value_of(fields, 0), "limit")?;
                state.largest_since_days = parse_optional_u32(value_of(fields, 1), "since_days")?;
            },
        },
        AnalyticsView::StaleThreads => {
            let c = choice_of(fields, 0);
            if str_eq(c.as_str(), "mine") {
                state.stale_perspective = StaleBallInCourt::Mine;
            } else if str_eq(c.as_str(), "theirs") {
                state.stale_perspective = StaleBallInCourt::Theirs;
            } else {
                return Err(invalid_choice_message("perspective", c.as_str()));
            }
            state.stale_older_than_days = parse_u32(value_of(fields, 1), "older_than_days")?;
            state.stale_within_days = parse_u32(value_of(fields, 2), "within_days")?;
        },
        AnalyticsView::Contacts => match state.contacts_mode {
            ContactsMode::Asymmetry => {
                state.asymmetry_min_inbound = parse_u32(value_of(fields, 0), "min_inbound")?;
            },
            ContactsMode::Decay => {
                state.decay_threshold_days = parse_u32(value_of(fields, 0), "threshold_days")?;
                state.decay_max_lookback_days = parse_u32(value_of(fields, 1), "max_lookback_days")?;
            },
        },
        AnalyticsView::CadenceDrift => {},
        AnalyticsView::ResponseTime => {
            let c = choice_of(fields, 0);
            if str_eq(c.as_str(), "i_replied") {
                state.response_time_direction = ResponseTimeDirection::IReplied;
            } else if str_eq(c.as_str(), "they_replied") {
                state.response_time_direction = ResponseTimeDirection::TheyReplied;
            } else {
                return Err(invalid_choice_message("direction", c.as_str()));
            }
            let cp = trim_str(value_of(fields, 1));
            state.response_time_counterparty = if cp.as_str().is_empty() {
                None
            } else {
                Some(cp)
            };
            state.response_time_since_days = parse_optional_u32(value_of(fields, 2), "since_days")?;
        },
        AnalyticsView::Subscriptions => {
            state.subscriptions_limit = parse_u32(value_of(fields, 0), "limit")?;
            let c = choice_of(fields, 1);
            if str_eq(c.as_str(), "true") {
                state.subscriptions_rank = true;
            } else if str_eq(c.as_str(), "false") {
                state.subscriptions_rank = false;
            } else {
                return Err(invalid_choice_message("rank", c.as_str()));
            }
        },
        AnalyticsView::Wrapped => {
            let kind = choice_of(fields, 0);
            let year = parse_i32(value_of(fields, 1), "year")?;
            let days = parse_u32(value_of(fields, 2), "days")?;
            if str_eq(kind.as_str(), "ytd") {
                state.wrapped_window = WrappedWindow::Ytd;
            } else if str_eq(kind.as_str(), "year") {
                state.wrapped_window = WrappedWindow::Year(year);
            } else if str_eq(kind.as_str(), "since_days") {
                state.wrapped_window = WrappedWindow::SinceDays(days);
            } else {
                return Err(invalid_choice_message("window", kind.as_str()));
            }
        },
    }
    Ok(())
}


// ---------------------------------------------------------------------
// Laws
// ---------------------------------------------------------------------

/// The values the filter modal shows.
pub open spec fn modal_values(s: AnalyticsState, year: i32) -> Seq<Seq<char>> {
    modal_fields(s, year).map_values(|f: FieldView| f.1)
}

/// A choice name is its own trimmed, lower-cased form.
proof fn lemma_choice_name(s: Seq<char>)
    requires
        s.len() > 0,
        forall|i: int| 0 <= i < s.len() ==> ('a' <= #[trigger] s[i] && s[i] <= 'z') || s[i] == '_',
    ensures
        choice(s) == s,
{
    assert('a' <= s[0] && s[0] <= 'z' || s[0] == '_');
    assert('a' <= s[s.len() - 1] && s[s.len() - 1] <= 'z' || s[s.len() - 1] == '_');
    lemma_trim_noop(s);
    lemma_lowercase_noop(s);
}

proof fn lemma_choice_names()
    ensures
        choice("sender"@) == "sender"@,
        choice("mimetype"@) == "mimetype"@,
        choice("label"@) == "label"@,
        choice("mine"@) == "mine"@,
        choice("theirs"@) == "theirs"@,
        choice("i_replied"@) == "i_replied"@,
        choice("they_replied"@) == "they_replied"@,
        choice("true"@) == "true"@,
        choice("false"@) == "false"@,
        choice("ytd"@) == "ytd"@,
        choice("year"@) == "year"@,
        choice("since_days"@) == "since_days"@,
        "sender"@ != "mimetype"@,
        "sender"@ != "label"@,
        "mimetype"@ != "label"@,
        "mine"@ != "theirs"@,
        "i_replied"@ != "they_replied"@,
        "true"@ != "false"@,
        "ytd"@ != "year"@,
        "ytd"@ != "since_days"@,
        "year"@ != "since_days"@,
{
    reveal_strlit("sender");
    reveal_strlit("mimetype");
    reveal_strlit("label");
    reveal_strlit("mine");
    reveal_strlit("theirs");
    reveal_strlit("i_replied");
    reveal_strlit("they_replied");
    reveal_strlit("true");
    reveal_strlit("false");
    reveal_strlit("ytd");
    reveal_strlit("year");
    reveal_strlit("since_days");
    lemma_choice_name("sender"@);
    lemma_choice_name("mimetype"@);
    lemma_choice_name("label"@);
    lemma_choice_name("mine"@);
    lemma_choice_name("theirs"@);
    lemma_choice_name("i_replied"@);
    lemma_choice_name("they_replied"@);
    lemma_choice_name("true"@);
    lemma_choice_name("false"@);
    lemma_choice_name("ytd"@);
    lemma_choice_name("year"@);
    lemma_choice_name("since_days"@);
    assert("sender"@.len() != "label"@.len());
    assert("sender"@.len() != "mimetype"@.len());
    assert("mimetype"@.len() != "label"@.len());
    assert("mine"@.len() != "theirs"@.len());
    assert("i_replied"@.len() != "they_replied"@.len());
    assert("true"@.len() != "false"@.len());
    assert("ytd"@.len() != "year"@.len());
    assert("ytd"@.len() != "since_days"@.len());
    assert("year"@.len() != "since_days"@.len());
}

proof fn lemma_number_fields(n: u32, o: Option<u32>, y: i32)
    ensures
        u32_of(decimal(n as nat)) == Some(n),
        optional_u32_of(optional_decimal(o)) == Some(o),
        i32_of(signed_decimal(y as int)) == Some(y),
        u32_of("90"@) == Some(90u32),
{
    lemma_decimal_clean(n as nat);
    lemma_parse_decimal(n as nat, u32::MAX as nat);
    match o {
        Some(d) => {
            lemma_decimal_clean(d as nat);
            lemma_parse_decimal(d as nat, u32::MAX as nat);
        },
        None => {
            assert(trim(Seq::<char>::empty()) =~= Seq::<char>::empty());
        },
    }
    lemma_signed_decimal_clean(y as int);
    lemma_parse_signed_decimal(y);
    reveal_strlit("90");
    assert(decimal(9) == seq!['9']);
    assert(decimal(90) == decimal(9).push('0'));
    assert(decimal(90) =~= "90"@);
    lemma_decimal_clean(90);
    lemma_parse_decimal(90, u32::MAX as nat);
}

/// Opening the filter modal and submitting it unchanged reads back every
/// value it showed and leaves the settings as they were (a counterparty
/// compares by its text; one with surrounding spaces, or an empty one,
/// would be read back trimmed or as none).
#[verifier::spinoff_prover]
#[verifier::rlimit(60)]
pub proof fn law_filter_modal_round_trip(
    s: AnalyticsState,
    new: AnalyticsState,
    year: i32,
    r: Result<(), String>,
)
    requires
        filters_applied(s, new, s.view, modal_values(s, year), r),
        s.view == AnalyticsView::ResponseTime ==> (s.response_time_counterparty matches Some(c)
            ==> c@.len() > 0 && trim(c@) == c@),
    ensures
        r is Ok,
        new == (AnalyticsState { response_time_counterparty: new.response_time_counterparty, ..s }),
        match s.response_time_counterparty {
            Some(c) => new.response_time_counterparty matches Some(x) && x@ == c@,
            None => new.response_time_counterparty is None,
        },
{
    lemma_choice_names();
    let vals = modal_values(s, year);
    match s.view {
        AnalyticsView::Storage => match s.storage_mode {
            StorageMode::Breakdown => {
                assert(value_at(vals, 0) == group_by_name(s.storage_group_by));
            },
            StorageMode::LargestMessages => {
                lemma_number_fields(s.largest_limit, s.largest_since_days, year);
                assert(value_at(vals, 0) == decimal(s.largest_limit as nat));
                assert(value_at(vals, 1) == optional_decimal(s.largest_since_days));
            },
        },
        AnalyticsView::StaleThreads => {
            lemma_number_fields(s.stale_older_than_days, None, year);
            lemma_number_fields(s.stale_within_days, None, year);
            assert(value_at(vals, 0) == perspective_name(s.stale_perspective));
            assert(value_at(vals, 1) == decimal(s.stale_older_than_days as nat));
            assert(value_at(vals, 2) == decimal(s.stale_within_days as nat));
        },
        AnalyticsView::Contacts => match s.contacts_mode {
            ContactsMode::Asymmetry => {
                lemma_number_fields(s.asymmetry_min_inbound, None, year);
                assert(value_at(vals, 0) == decimal(s.asymmetry_min_inbound as nat));
            },
            ContactsMode::Decay => {
                lemma_number_fields(s.decay_threshold_days, None, year);
                lemma_number_fields(s.decay_max_lookback_days, None, year);
                assert(value_at(vals, 0) == decimal(s.decay_threshold_days as nat));
                assert(value_at(vals, 1) == decimal(s.decay_max_lookback_days as nat));
            },
        },
        AnalyticsView::CadenceDrift => {},
        AnalyticsView::ResponseTime => {
            lemma_number_fields(0, s.response_time_since_days, year);
            assert(value_at(vals, 0) == direction_name(s.response_time_direction));
            assert(value_at(vals, 2) == optional_decimal(s.response_time_since_days));
            match s.response_time_counterparty {
                Some(c) => {
                    assert(value_at(vals, 1) == c@);
                },
                None => {
                    assert(value_at(vals, 1) == Seq::<char>::empty());
                    assert(trim(Seq::<char>::empty()) =~= Seq::<char>::empty());
                },
            }
        },
        AnalyticsView::Subscriptions => {
            lemma_number_fields(s.subscriptions_limit, None, year);
            assert(value_at(vals, 0) == decimal(s.subscriptions_limit as nat));
            assert(value_at(vals, 1) == bool_name(s.subscriptions_rank));
        },
        AnalyticsView::Wrapped => {
            assert(value_at(vals, 0) == window_name(s.wrapped_window));
            match s.wrapped_window {
                WrappedWindow::Year(y) => {
                    lemma_number_fields(0, None, y);
                    lemma_number_fields(0, None, year);
                    assert(value_at(vals, 1) == signed_decimal(y as int));
                    assert(value_at(vals, 2) == "90"@);
                },
                WrappedWindow::SinceDays(d) => {
                    lemma_number_fields(d, None, year);
                    assert(value_at(vals, 1) == signed_decimal(year as int));
                    assert(value_at(vals, 2) == decimal(d as nat));
                },
                WrappedWindow::Ytd => {
                    lemma_number_fields(0, None, year);
                    assert(value_at(vals, 1) == signed_decimal(year as int));
                    assert(value_at(vals, 2) == "90"@);
                },
            }
        },
    }
}


// ---------------------------------------------------------------------
// The time range of the yearly summary
// ---------------------------------------------------------------------

/// A calendar timestamp, or `now` when the calendar has no such instant.
pub open spec fn timestamp_or(t: Option<int>, now: i64) -> int {
    match t {
        Some(v) => v,
        None => now as int,
    }
}

/// Seconds in `days` days.
pub open spec fn days_in_seconds(days: u32) -> int {
    days * 86400
}

/// First second of the summary range for `window` at instant `now`,
/// whose calendar year is `now_year`.
pub open spec fn window_start(window: WrappedWindow, now: i64, now_year: i32) -> int {
    match window {
        WrappedWindow::Year(y) => timestamp_or(utc_datetime_timestamp(y, 1, 1, 0, 0, 0), now),
        WrappedWindow::SinceDays(d) => now - days_in_seconds(d),
        WrappedWindow::Ytd => timestamp_or(utc_datetime_timestamp(now_year, 1, 1, 0, 0, 0), now),
    }
}

/// Last second of the summary range.
pub open spec fn window_end(window: WrappedWindow, now: i64) -> int {
    match window {
        WrappedWindow::Year(y) => timestamp_or(utc_datetime_timestamp(y, 12, 31, 23, 59, 59), now),
        _ => now as int,
    }
}

/// The title of the summary range.
pub open spec fn window_title(window: WrappedWindow, now_year: i32) -> Seq<char> {
    match window {
        WrappedWindow::Year(y) => signed_decimal(y as int),
        WrappedWindow::SinceDays(d) => "last "@ + decimal(d as nat) + " days"@,
        WrappedWindow::Ytd => signed_decimal(now_year as int) + " year-to-date"@,
    }
}

/// Whether the range starts at an instant the calendar represents: a
/// range reaching back before it cannot be built.
pub open spec fn window_in_range(window: WrappedWindow, now: i64) -> bool {
    match window {
        WrappedWindow::SinceDays(d) => now - days_in_seconds(d) >= MIN_UTC_TIMESTAMP,
        _ => true,
    }
}

/// Whether `r` is the summary request for `window` at `now`.
pub open spec fn is_window_request(r: (i64, i64, String), window: WrappedWindow, now: i64, now_year: i32) -> bool {
    &&& r.0 == window_start(window, now, now_year)
    &&& r.1 == window_end(window, now)
    &&& r.2@ == window_title(window, now_year)
}

fn calendar_timestamp_or(t: Option<i64>, now: i64) -> (r: i64)
    ensures
        r == timestamp_or(as_int_option(t), now),
{
    match t {
        Some(v) => v,
        None => now,
    }
}

/// The start of the summary range comes no later than its end when the
/// year to date is counted in the calendar year of `now`.
proof fn lemma_window_ordered(window: WrappedWindow, now: i64, now_year: i32)
    requires
        is_year_of(now_year as int, now as int),
        window_in_range(window, now),
    ensures
        window_start(window, now, now_year) <= window_end(window, now),
{
    match window {
        WrappedWindow::Year(y) => {
            lemma_year_length(y as int);
        },
        _ => {},
    }
}

/// The summary request (start, end, title) for `window` at instant
/// `now`, the year to date counted in the calendar year of `now`. The
/// range never ends before it starts.
pub fn wrapped_window_request_at(window: WrappedWindow, now: i64) -> (r: (i64, i64, String))
    requires
        MIN_UTC_TIMESTAMP <= now <= MAX_UTC_TIMESTAMP,
        window_in_range(window, now),
    ensures
        is_window_request(r, window, now, year_of(now as int) as i32),
        r.0 <= r.1,
{
    let now_year = year_of_timestamp(now);
    proof {
        lemma_window_ordered(window, now, now_year);
    }
    match window {
        WrappedWindow::Year(y) => {
            let start = calendar_timestamp_or(utc_timestamp(y, 1, 1, 0, 0, 0), now);
            let end = calendar_timestamp_or(utc_timestamp(y, 12, 31, 23, 59, 59), now);
            (start, end, i32_text(y))
        },
        WrappedWindow::SinceDays(d) => {
            let secs: i64 = d as i64 * 86400;
            let title = concat3("last ", &u32_text(d), " days");
            (now - secs, now, title)
        },
        WrappedWindow::Ytd => {
            let start = calendar_timestamp_or(utc_timestamp(now_year, 1, 1, 0, 0, 0), now);
            let title = concat2(&i32_text(now_year), " year-to-date");
            (start, now, title)
        },
    }
}

/// The summary request for `window` at the current instant. `None` where
/// the range would start before the earliest instant the calendar
/// represents, which only a window of days can do.
pub fn wrapped_window_to_request(window: WrappedWindow) -> (r: Option<(i64, i64, String)>)
    ensures
        r is None ==> window is SinceDays,
        r matches Some(t) ==> t.0 <= t.1 && exists|now: i64|
            crate::clock::clock_reading(now as int)
            && #[trigger] is_window_request(t, window, now, year_of(now as int) as i32),
        r is None ==> exists|now: i64| crate::clock::clock_reading(now as int)
            && !#[trigger] window_in_range(window, now),
{
    let (now, _) = utc_now();
    let in_range = match window {
        WrappedWindow::SinceDays(d) => now - (d as i64) * 86400 >= MIN_UTC_TIMESTAMP,
        _ => true,
    };
    if !in_range {
        assert(!window_in_range(window, now));
        return None;
    }
    let t = wrapped_window_request_at(window, now);
    let r = Some(t);
    assert(r matches Some(u) && is_window_request(u, window, now, year_of(now as int) as i32));
    r
}


// ---------------------------------------------------------------------
// Submitting the filter modal and requesting the active view
// ---------------------------------------------------------------------

/// The typed values of a modal.
pub open spec fn typed_values(m: AnalyticsFilterModalState) -> Seq<Seq<char>> {
    m.fields@.map_values(|f: AnalyticsFilterField| f.value@)
}

/// The settings `s` with the refresh mark set to `flag`.
pub open spec fn with_refresh(s: AnalyticsState, flag: bool) -> AnalyticsState {
    AnalyticsState { refresh_pending: flag, ..s }
}

/// Writes the open filter modal back into the settings. When every value
/// reads, the modal closes and the view is marked for a refresh; when
/// one does not, the modal stays open with the reason as its error (the
/// values before it are written, as `apply_filter_modal_fields` does).
/// Without a modal nothing changes.
pub fn submit_analytics_filter_modal(
    state: &mut AnalyticsState,
    modal: &mut Option<AnalyticsFilterModalState>,
)
    ensures
        match *old(modal) {
            None => *final(state) == *old(state) && *final(modal) is None,
            Some(m) => exists|r: Result<(), String>| {
                &&& #[trigger] filters_applied(
                    *old(state),
                    with_refresh(*final(state), old(state).refresh_pending),
                    m.view,
                    typed_values(m),
                    r,
                )
                &&& match r {
                    Ok(_) => *final(modal) is None && final(state).refresh_pending,
                    Err(e) => {
                        &&& final(state).refresh_pending == old(state).refresh_pending
                        &&& *final(modal) == Some(
                            AnalyticsFilterModalState { validation_error: Some(e), ..m },
                        )
                    },
                }
            },
        },
{
    let ghost old_state = *state;
    let ghost old_modal = *modal;
    let result = match modal {
        None => {
            return;
        },
        Some(m) => apply_filter_modal_fields(state, m.view, m.fields.as_slice()),
    };
    let ghost applied = *state;
    let ghost r = result;
    assert(with_refresh(applied, old_state.refresh_pending) == applied);
    match result {
        Ok(()) => {
            *modal = None;
            state.refresh_pending = true;
            assert(with_refresh(*state, old_state.refresh_pending) == applied);
        },
        Err(err) => {
            match modal {
                Some(m) => {
                    m.validation_error = Some(err);
                },
                None => {},
            }
        },
    }
    assert(filters_applied(
        old_state,
        with_refresh(*state, old_state.refresh_pending),
        old_modal->0.view,
        typed_values(old_modal->0),
        r,
    ));
}

/// A request to the daemon for the analytics of the active view, over
/// every account unless it names one.
#[derive(Debug, Clone, PartialEq, Eq)]
pub enum AnalyticsRequest {
    ListStorageBreakdown { group_by: StorageGroupBy, limit: u32 },
    ListLargestMessages { since_days: Option<u32>, limit: u32 },
    ListStaleThreads {
        perspective: StaleBallInCourt,
        older_than_days: u32,
        within_days: u32,
        limit: u32,
    },
    ListContactAsymmetry { min_inbound: u32, limit: u32 },
    ListContactDecay { threshold_days: u32, max_lookback_days: u32, limit: u32 },
    /// Cadence drift is measured for one account.
    ListCadenceDrift { account_id: u128 },
    ListResponseTime {
        direction: ResponseTimeDirection,
        counterparty: Option<String>,
        since_days: Option<u32>,
    },
    ListSubscriptions { limit: u32 },
    Wrapped { since_unix: i64, until_unix: i64, label: String },
}

/// Whether `r` is the request for the active view of `s`, with
/// `account` the default account and the summary window taken at `now`
/// of year `now_year`; no request for cadence drift without an account.
pub open spec fn is_view_request(
    r: Option<AnalyticsRequest>,
    s: AnalyticsState,
    account: Option<u128>,
    now: i64,
    now_year: i32,
) -> bool {
    match s.view {
        AnalyticsView::Storage => match s.storage_mode {
            StorageMode::Breakdown => r == Some(
                AnalyticsRequest::ListStorageBreakdown { group_by: s.storage_group_by, limit: 100 },
            ),
            StorageMode::LargestMessages => r == Some(
                AnalyticsRequest::ListLargestMessages {
                    since_days: s.largest_since_days,
                    limit: s.largest_limit,
                },
            ),
        },
        AnalyticsView::StaleThreads => r == Some(
            AnalyticsRequest::ListStaleThreads {
                perspective: s.stale_perspective,
                older_than_days: s.stale_older_than_days,
                within_days: s.stale_within_days,
                limit: 100,
            },
        ),
        AnalyticsView::Contacts => match s.contacts_mode {
            ContactsMode::Asymmetry => r == Some(
                AnalyticsRequest::ListContactAsymmetry {
                    min_inbound: s.asymmetry_min_inbound,
                    limit: 100,
                },
            ),
            ContactsMode::Decay => r == Some(
                AnalyticsRequest::ListContactDecay {
                    threshold_days: s.decay_threshold_days,
                    max_lookback_days: s.decay_max_lookback_days,
                    limit: 100,
                },
            ),
        },
        AnalyticsView::CadenceDrift => match account {
            Some(a) => r == Some(AnalyticsRequest::ListCadenceDrift { account_id: a }),
            None => r is None,
        },
        AnalyticsView::ResponseTime => r == Some(
            AnalyticsRequest::ListResponseTime {
                direction: s.response_time_direction,
                counterparty: s.response_time_counterparty,
                since_days: s.response_time_since_days,
            },
        ),
        AnalyticsView::Subscriptions => r == Some(
            AnalyticsRequest::ListSubscriptions { limit: s.subscriptions_limit },
        ),
        AnalyticsView::Wrapped => match r {
            Some(AnalyticsRequest::Wrapped { since_unix, until_unix, label }) => {
                &&& since_unix == window_start(s.wrapped_window, now, now_year)
                &&& until_unix == window_end(s.wrapped_window, now)
                &&& label@ == window_title(s.wrapped_window, now_year)
            },
            _ => false,
        },
    }
}

fn copy_opt_string(s: &Option<String>) -> (r: Option<String>)
    ensures
        r == *s,
{
    match s {
        Some(v) => Some(v.clone()),
        None => None,
    }
}

/// The request for the active view at instant `now` (the year to date
/// counted in its calendar year), with `default_account` the account cadence drift is measured for.
pub fn analytics_request_at(state: &AnalyticsState, default_account: Option<u128>, now: i64) -> (r:
    Option<AnalyticsRequest>)
    requires
        MIN_UTC_TIMESTAMP <= now <= MAX_UTC_TIMESTAMP,
        state.view == AnalyticsView::Wrapped ==> window_in_range(state.wrapped_window, now),
    ensures
        is_view_request(r, *state, default_account, now, year_of(now as int) as i32),
{
    match state.view {
        AnalyticsView::Storage => match state.storage_mode {
            StorageMode::Breakdown => Some(
                AnalyticsRequest::ListStorageBreakdown {
                    group_by: state.storage_group_by,
                    limit: 100,
                },
            ),
            StorageMode::LargestMessages => Some(
                AnalyticsRequest::ListLargestMessages {
                    since_days: state.largest_since_days,
                    limit: state.largest_limit,
                },
            ),
        },
        AnalyticsView::StaleThreads => Some(
            AnalyticsRequest::ListStaleThreads {
                perspective: state.stale_perspective,
                older_than_days: state.stale_older_than_days,
                within_days: state.stale_within_days,
                limit: 100,
            },
        ),
        AnalyticsView::Contacts => match state.contacts_mode {
            ContactsMode::Asymmetry => Some(
                AnalyticsRequest::ListContactAsymmetry {
                    min_inbound: state.asymmetry_min_inbound,
                    limit: 100,
                },
            ),
            ContactsMode::Decay => Some(
                AnalyticsRequest::ListContactDecay {
                    threshold_days: state.decay_threshold_days,
                    max_lookback_days: state.decay_max_lookback_days,
                    limit: 100,
                },
            ),
        },
        AnalyticsView::CadenceDrift => match default_account {
            Some(a) => Some(AnalyticsRequest::ListCadenceDrift { account_id: a }),
            None => None,
        },
        AnalyticsView::ResponseTime => Some(
            AnalyticsRequest::ListResponseTime {
                direction: state.response_time_direction,
                counterparty: copy_opt_string(&state.response_time_counterparty),
                since_days: state.response_time_since_days,
            },
        ),
        AnalyticsView::Subscriptions => Some(
            AnalyticsRequest::ListSubscriptions { limit: state.subscriptions_limit },
        ),
        AnalyticsView::Wrapped => {
            let (since_unix, until_unix, label) = wrapped_window_request_at(state.wrapped_window, now);
            Some(AnalyticsRequest::Wrapped { since_unix, until_unix, label })
        },
    }
}

/// The request for the active view at the current instant. `None` for
/// cadence drift without a default account, and for a summary window of
/// days reaching back before the earliest instant the calendar
/// represents.
pub fn analytics_request_for_active_view(state: &AnalyticsState, default_account: Option<u128>) -> (r:
    Option<AnalyticsRequest>)
    ensures
        state.view != AnalyticsView::Wrapped ==> is_view_request(
            r,
            *state,
            default_account,
            0,
            0,
        ),
        state.view == AnalyticsView::Wrapped && r is Some ==> exists|now: i64|
            crate::clock::clock_reading(now as int) && #[trigger] is_view_request(
                r,
                *state,
                default_account,
                now,
                year_of(now as int) as i32,
            ),
        state.view == AnalyticsView::Wrapped && r is None ==> state.wrapped_window is SinceDays,
{
    let (now, _) = utc_now();
    if state.view == AnalyticsView::Wrapped && !window_fits(state.wrapped_window, now) {
        return None;
    }
    let r = analytics_request_at(state, default_account, now);
    assert(is_view_request(r, *state, default_account, now, year_of(now as int) as i32));
    r
}

fn window_fits(window: WrappedWindow, now: i64) -> (b: bool)
    requires
        MIN_UTC_TIMESTAMP <= now <= MAX_UTC_TIMESTAMP,
    ensures
        b == window_in_range(window, now),
{
    match window {
        WrappedWindow::SinceDays(d) => now - (d as i64) * 86400 >= MIN_UTC_TIMESTAMP,
        _ => true,
    }
}

/// A window of the last `d` days ends at the instant it is asked at,
/// starts exactly `d` days before, and is titled with the days.
pub proof fn law_since_days_window_ends_now(t: (i64, i64, String), d: u32, now: i64, year: i32)
    requires
        is_window_request(t, WrappedWindow::SinceDays(d), now, year),
    ensures
        t.1 == now,
        t.1 - t.0 == d * 86400,
        t.2@ == "last "@ + decimal(d as nat) + " days"@,
{
}

/// The year-to-date window, asked at `now` in its calendar year, ends at
/// `now` and starts at the first second of that year: no later than
/// `now` and less than a leap year's length before it.
pub proof fn law_year_to_date_window_ends_now(t: (i64, i64, String), now: i64, year: i32)
    requires
        is_window_request(t, WrappedWindow::Ytd, now, year),
        is_year_of(year as int, now as int),
    ensures
        t.1 == now,
        t.0 <= t.1,
        t.1 - t.0 < 366 * 86400,
{
    lemma_year_length(year as int);
    assert(valid_datetime(year as int, 1, 1, 0, 0, 0));
}

/// A calendar-year window runs from the first second of that year to its
/// last second: a whole year of 365 or 366 days, whatever the instant it
/// is asked at, titled with the year.
pub proof fn law_year_window_is_whole_year(t: (i64, i64, String), y: i32, now: i64, year: i32)
    requires
        is_window_request(t, WrappedWindow::Year(y), now, year),
        MIN_YEAR <= y <= MAX_YEAR,
    ensures
        t.1 - t.0 + 1 == 365 * 86400 || t.1 - t.0 + 1 == 366 * 86400,
        t.2@ == signed_decimal(y as int),
{
    lemma_year_length(y as int);
    assert(valid_datetime(y as int, 1, 1, 0, 0, 0));
    assert(valid_datetime(y as int, 12, 31, 23, 59, 59));
}

} // verus!
