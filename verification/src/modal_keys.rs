//! Keys while a modal is open. An open modal takes every key: the error
//! modal first, then the account setup prompt, the help overlay and the
//! feature tour; only with none of them open does a key reach the screen.
use vstd::prelude::*;
use crate::action::Action;
use crate::connection::ErrorModalState;
use crate::input::{is_plain_or_shift, plain_or_shift, KeyCode, KeyEvent, KeyModifiers, CONTROL_BIT};
use crate::screen::snooze_presets;
use crate::text::{chars_of, string_of};

verus! {

/// Rows the error modal and the help overlay move on a page key.
pub const MODAL_PAGE_ROWS: u16 = 8;

/// The modals that take the keyboard, with what they show.
pub struct ModalState {
    pub error: Option<ErrorModalState>,
    /// The prompt shown until the first account is set up.
    pub account_onboarding_open: bool,
    pub help_open: bool,
    /// What the user typed to search the help overlay.
    pub help_query: String,
    pub help_scroll_offset: u16,
    /// The highlighted search result of the help overlay.
    pub help_selected: usize,
    /// The feature tour.
    pub onboarding_visible: bool,
    pub onboarding_step: usize,
}

/// What became of a key offered to the modals.
pub enum ModalKeyOutcome {
    /// No modal is open: the key goes on to the screen.
    NotCaptured,
    /// A modal took the key and asks for nothing more.
    Consumed,
    /// A modal took the key and asks for this action.
    Emit(Action),
    /// The account setup prompt was confirmed.
    CompleteAccountSetup,
    /// The feature tour moves on a step.
    AdvanceOnboarding,
    /// The feature tour is dismissed.
    DismissOnboarding,
}

pub open spec fn is_char(key: KeyEvent, c: char) -> bool {
    key.code == KeyCode::Char(c)
}

/// Control alone.
pub open spec fn ctrl_only(m: KeyModifiers) -> bool {
    m.bits == CONTROL_BIT
}

pub open spec fn sat_add16(x: u16, d: int) -> u16 {
    if x + d > u16::MAX {
        u16::MAX
    } else {
        (x + d) as u16
    }
}

pub open spec fn sat_sub16(x: u16, d: int) -> u16 {
    if x < d {
        0
    } else {
        (x - d) as u16
    }
}

pub open spec fn sat_sub(x: int, d: int) -> int {
    if x < d {
        0
    } else {
        x - d
    }
}

/// `x` held to the last of `count` entries.
pub open spec fn at_most_last(x: int, count: nat) -> int {
    if x > count - 1 {
        count - 1
    } else {
        x
    }
}

pub open spec fn line_down_key(key: KeyEvent) -> bool {
    is_char(key, 'j') || key.code == KeyCode::Down
}

pub open spec fn line_up_key(key: KeyEvent) -> bool {
    is_char(key, 'k') || key.code == KeyCode::Up
}

pub open spec fn ctrl_char(key: KeyEvent, c: char) -> bool {
    is_char(key, c) && ctrl_only(key.modifiers)
}

/// Whether a key closes the error modal.
pub open spec fn closes_error_modal(key: KeyEvent) -> bool {
    key.code == KeyCode::Esc || key.code == KeyCode::Enter || is_char(key, 'q') || is_char(
        key,
        'x',
    )
}

pub open spec fn scrolled_to(e: ErrorModalState, offset: u16) -> ErrorModalState {
    ErrorModalState { title: e.title, detail: e.detail, scroll_offset: offset }
}

/// The error modal after a key: it scrolls by a line or a page, closes,
/// or stays as it is.
pub open spec fn error_modal_after(e: ErrorModalState, key: KeyEvent) -> Option<ErrorModalState> {
    if line_down_key(key) {
        Some(scrolled_to(e, sat_add16(e.scroll_offset, 1)))
    } else if line_up_key(key) {
        Some(scrolled_to(e, sat_sub16(e.scroll_offset, 1)))
    } else if ctrl_char(key, 'd') || key.code == KeyCode::PageDown {
        Some(scrolled_to(e, sat_add16(e.scroll_offset, MODAL_PAGE_ROWS as int)))
    } else if ctrl_char(key, 'u') || key.code == KeyCode::PageUp {
        Some(scrolled_to(e, sat_sub16(e.scroll_offset, MODAL_PAGE_ROWS as int)))
    } else if closes_error_modal(key) {
        None
    } else {
        Some(e)
    }
}

/// Whether a key closes the help overlay (by asking for `Help` again).
pub open spec fn closes_help(key: KeyEvent) -> bool {
    key.code == KeyCode::Esc || key.code == KeyCode::Enter || is_char(key, '?') || is_char(
        key,
        'q',
    )
}

/// Whether a key types a character into the help search.
pub open spec fn types_into_help(key: KeyEvent) -> bool {
    key.code is Char && is_plain_or_shift(key.modifiers)
}

/// The help search, scroll position and highlighted result after a key,
/// with `count` the number of help entries that match the search as it
/// stands after the key. Moving keys move the highlight while a search is
/// typed and scroll the overlay otherwise.
pub open spec fn help_after(
    query: Seq<char>,
    scroll: u16,
    selected: int,
    key: KeyEvent,
    count: nat,
) -> (Seq<char>, u16, int) {
    let searching = query.len() > 0;
    if closes_help(key) {
        (query, scroll, selected)
    } else if line_down_key(key) {
        if !searching {
            (query, sat_add16(scroll, 1), selected)
        } else if count > 0 {
            (query, scroll, at_most_last(selected + 1, count))
        } else {
            (query, scroll, selected)
        }
    } else if line_up_key(key) {
        if searching {
            (query, scroll, sat_sub(selected, 1))
        } else {
            (query, sat_sub16(scroll, 1), selected)
        }
    } else if ctrl_char(key, 'd') {
        if !searching {
            (query, sat_add16(scroll, MODAL_PAGE_ROWS as int), selected)
        } else if count > 0 {
            (query, scroll, at_most_last(selected + MODAL_PAGE_ROWS, count))
        } else {
            (query, scroll, selected)
        }
    } else if ctrl_char(key, 'u') {
        if searching {
            (query, scroll, sat_sub(selected, MODAL_PAGE_ROWS as int))
        } else {
            (query, sat_sub16(scroll, MODAL_PAGE_ROWS as int), selected)
        }
    } else if key.code == KeyCode::Backspace {
        let shorter = if searching {
            query.drop_last()
        } else {
            query
        };
        if shorter.len() == 0 {
            (shorter, scroll, 0)
        } else {
            (shorter, scroll, if selected > sat_sub(count as int, 1) {
                sat_sub(count as int, 1)
            } else {
                selected
            })
        }
    } else if types_into_help(key) {
        (query.push(key.code->0), scroll, 0)
    } else {
        (query, scroll, selected)
    }
}

/// What the account setup prompt does with a key.
pub open spec fn account_onboarding_outcome(key: KeyEvent) -> ModalKeyOutcome {
    if key.code == KeyCode::Enter || is_char(key, ' ') {
        ModalKeyOutcome::CompleteAccountSetup
    } else if is_char(key, 'q') {
        ModalKeyOutcome::Emit(Action::QuitView)
    } else {
        ModalKeyOutcome::Consumed
    }
}

pub open spec fn advances_tour(key: KeyEvent) -> bool {
    key.code == KeyCode::Enter || is_char(key, ' ') || key.code == KeyCode::Right || is_char(
        key,
        'l',
    )
}

pub open spec fn steps_tour_back(key: KeyEvent) -> bool {
    key.code == KeyCode::Left || is_char(key, 'h')
}

pub open spec fn dismisses_tour(key: KeyEvent) -> bool {
    key.code == KeyCode::Esc || is_char(key, 'q')
}

/// What the feature tour does with a key.
pub open spec fn tour_outcome(key: KeyEvent) -> ModalKeyOutcome {
    if advances_tour(key) {
        ModalKeyOutcome::AdvanceOnboarding
    } else if steps_tour_back(key) {
        ModalKeyOutcome::Consumed
    } else if dismisses_tour(key) {
        ModalKeyOutcome::DismissOnboarding
    } else {
        ModalKeyOutcome::Consumed
    }
}

pub open spec fn same_help(a: ModalState, b: ModalState) -> bool {
    &&& b.help_open == a.help_open
    &&& b.help_query@ == a.help_query@
    &&& b.help_scroll_offset == a.help_scroll_offset
    &&& b.help_selected == a.help_selected
}

pub open spec fn same_tour(a: ModalState, b: ModalState) -> bool {
    b.onboarding_visible == a.onboarding_visible && b.onboarding_step == a.onboarding_step
}

/// Whether `new` and `out` are the modals and the outcome after `key`
/// reaches the modals `old`, with `count` as in `help_after`.
pub open spec fn modal_key_step(
    old: ModalState,
    new: ModalState,
    key: KeyEvent,
    count: nat,
    out: ModalKeyOutcome,
) -> bool {
    if old.error is Some {
        &&& new.error == error_modal_after(old.error->0, key)
        &&& out == ModalKeyOutcome::Consumed
        &&& new.account_onboarding_open == old.account_onboarding_open
        &&& same_help(old, new)
        &&& same_tour(old, new)
    } else if old.account_onboarding_open {
        &&& new.error == old.error
        &&& new.account_onboarding_open == (key.code != KeyCode::Esc)
        &&& out == account_onboarding_outcome(key)
        &&& same_help(old, new)
        &&& same_tour(old, new)
    } else if old.help_open {
        let r = help_after(old.help_query@, old.help_scroll_offset, old.help_selected as int, key, count);
        &&& new.error == old.error
        &&& new.account_onboarding_open == old.account_onboarding_open
        &&& new.help_open
        &&& new.help_query@ == r.0
        &&& new.help_scroll_offset == r.1
        &&& new.help_selected == r.2
        &&& out == (if closes_help(key) {
            ModalKeyOutcome::Emit(Action::Help)
        } else {
            ModalKeyOutcome::Consumed
        })
        &&& same_tour(old, new)
    } else if old.onboarding_visible {
        &&& new.error == old.error
        &&& new.account_onboarding_open == old.account_onboarding_open
        &&& same_help(old, new)
        &&& new.onboarding_visible
        &&& new.onboarding_step == (if !advances_tour(key) && steps_tour_back(key) {
            sat_sub(old.onboarding_step as int, 1)
        } else {
            old.onboarding_step as int
        })
        &&& out == tour_outcome(key)
    } else {
        &&& new == old
        &&& out == ModalKeyOutcome::NotCaptured
    }
}

fn ctrl_alone(m: KeyModifiers) -> (b: bool)
    ensures
        b == ctrl_only(m),
{
    m.bits == CONTROL_BIT
}

fn key_is_char(key: KeyEvent, c: char) -> (b: bool)
    ensures
        b == is_char(key, c),
{
    match key.code {
        KeyCode::Char(k) => k == c,
        _ => false,
    }
}

fn add_capped16(x: u16, d: u16) -> (r: u16)
    ensures
        r == sat_add16(x, d as int),
{
    if x > u16::MAX - d {
        u16::MAX
    } else {
        x + d
    }
}

fn sub_floor16(x: u16, d: u16) -> (r: u16)
    ensures
        r == sat_sub16(x, d as int),
{
    if x < d {
        0
    } else {
        x - d
    }
}

fn sub_floor(x: usize, d: usize) -> (r: usize)
    ensures
        r == sat_sub(x as int, d as int),
{
    if x < d {
        0
    } else {
        x - d
    }
}

/// `x + d` held to the last of `count` entries; `count` is not zero.
fn advance_capped(x: usize, d: usize, count: usize) -> (r: usize)
    requires
        count > 0,
    ensures
        r == at_most_last(x + d, count as nat),
{
    let last = count - 1;
    if x >= last || last - x <= d {
        last
    } else {
        x + d
    }
}

fn error_key(e: &mut ErrorModalState, key: KeyEvent) -> (close: bool)
    ensures
        close ==> error_modal_after(*old(e), key) is None,
        !close ==> error_modal_after(*old(e), key) == Some(*final(e)),
{
    let down = key_is_char(key, 'j') || key.code == KeyCode::Down;
    let up = key_is_char(key, 'k') || key.code == KeyCode::Up;
    let ctrl = ctrl_alone(key.modifiers);
    if down {
        e.scroll_offset = add_capped16(e.scroll_offset, 1);
        false
    } else if up {
        e.scroll_offset = sub_floor16(e.scroll_offset, 1);
        false
    } else if (ctrl && key_is_char(key, 'd')) || key.code == KeyCode::PageDown {
        e.scroll_offset = add_capped16(e.scroll_offset, MODAL_PAGE_ROWS);
        false
    } else if (ctrl && key_is_char(key, 'u')) || key.code == KeyCode::PageUp {
        e.scroll_offset = sub_floor16(e.scroll_offset, MODAL_PAGE_ROWS);
        false
    } else {
        key.code == KeyCode::Esc || key.code == KeyCode::Enter || key_is_char(key, 'q')
            || key_is_char(key, 'x')
    }
}

fn help_key(state: &mut ModalState, key: KeyEvent, count: usize) -> (closes: bool)
    ensures
        closes == closes_help(key),
        ({
            let r = help_after(
                old(state).help_query@,
                old(state).help_scroll_offset,
                old(state).help_selected as int,
                key,
                count as nat,
            );
            &&& final(state).help_query@ == r.0
            &&& final(state).help_scroll_offset == r.1
            &&& final(state).help_selected == r.2
        }),
        final(state).error == old(state).error,
        final(state).account_onboarding_open == old(state).account_onboarding_open,
        final(state).help_open == old(state).help_open,
        same_tour(*old(state), *final(state)),
{
    let searching = chars_of(state.help_query.as_str()).len() > 0;
    let ctrl = ctrl_alone(key.modifiers);
    if key.code == KeyCode::Esc || key.code == KeyCode::Enter || key_is_char(key, '?')
        || key_is_char(key, 'q') {
        return true;
    }
    if key_is_char(key, 'j') || key.code == KeyCode::Down {
        if !searching {
            state.help_scroll_offset = add_capped16(state.help_scroll_offset, 1);
        } else if count > 0 {
            state.help_selected = advance_capped(state.help_selected, 1, count);
        }
    } else if key_is_char(key, 'k') || key.code == KeyCode::Up {
        if searching {
            state.help_selected = sub_floor(state.help_selected, 1);
        } else {
            state.help_scroll_offset = sub_floor16(state.help_scroll_offset, 1);
        }
    } else if ctrl && key_is_char(key, 'd') {
        if !searching {
            state.help_scroll_offset = add_capped16(state.help_scroll_offset, MODAL_PAGE_ROWS);
        } else if count > 0 {
            state.help_selected = advance_capped(
                state.help_selected,
                MODAL_PAGE_ROWS as usize,
                count,
            );
        }
    } else if ctrl && key_is_char(key, 'u') {
        if searching {
            state.help_selected = sub_floor(state.help_selected, MODAL_PAGE_ROWS as usize);
        } else {
            state.help_scroll_offset = sub_floor16(state.help_scroll_offset, MODAL_PAGE_ROWS);
        }
    } else if key.code == KeyCode::Backspace {
        let mut chars = chars_of(state.help_query.as_str());
        if chars.len() > 0 {
            chars.pop();
        }
        state.help_query = string_of(chars.as_slice());
        if chars.len() == 0 {
            state.help_selected = 0;
        } else {
            let last = sub_floor(count, 1);
            if state.help_selected > last {
                state.help_selected = last;
            }
        }
    } else {
        match key.code {
            KeyCode::Char(c) => {
                if plain_or_shift(key.modifiers) {
                    let mut chars = chars_of(state.help_query.as_str());
                    chars.push(c);
                    state.help_query = string_of(chars.as_slice());
                    state.help_selected = 0;
                }
            },
            _ => {},
        }
    }
    false
}

/// Offers a key to the open modals. The first open one of the error
/// modal, the account setup prompt, the help overlay and the feature tour
/// takes it; with none open the key is not captured and nothing changes.
/// `help_result_count` is the number of help entries that match the help
/// search as it stands after the key (the help catalogue lives with the
/// screens).
pub fn handle_modal_key(state: &mut ModalState, key: KeyEvent, help_result_count: usize) -> (out:
    ModalKeyOutcome)
    ensures
        modal_key_step(*old(state), *final(state), key, help_result_count as nat, out),
{
    if state.error.is_some() {
        let mut e = state.error.take().unwrap();
        let close = error_key(&mut e, key);
        if !close {
            state.error = Some(e);
        }
        return ModalKeyOutcome::Consumed;
    }
    if state.account_onboarding_open {
        if key.code == KeyCode::Enter || key_is_char(key, ' ') {
            return ModalKeyOutcome::CompleteAccountSetup;
        }
        if key_is_char(key, 'q') {
            return ModalKeyOutcome::Emit(Action::QuitView);
        }
        if key.code == KeyCode::Esc {
            state.account_onboarding_open = false;
        }
        return ModalKeyOutcome::Consumed;
    }
    if state.help_open {
        let closes = help_key(state, key, help_result_count);
        if closes {
            return ModalKeyOutcome::Emit(Action::Help);
        }
        return ModalKeyOutcome::Consumed;
    }
    if state.onboarding_visible {
        if key.code == KeyCode::Enter || key_is_char(key, ' ') || key.code == KeyCode::Right
            || key_is_char(key, 'l') {
            return ModalKeyOutcome::AdvanceOnboarding;
        }
        if key.code == KeyCode::Left || key_is_char(key, 'h') {
            state.onboarding_step = sub_floor(state.onboarding_step, 1);
            return ModalKeyOutcome::Consumed;
        }
        if key.code == KeyCode::Esc || key_is_char(key, 'q') {
            return ModalKeyOutcome::DismissOnboarding;
        }
        return ModalKeyOutcome::Consumed;
    }
    ModalKeyOutcome::NotCaptured
}

/// While any modal is open the key stays with the modals: it never
/// reaches the screen.
pub proof fn law_open_modal_takes_every_key(
    old: ModalState,
    new: ModalState,
    key: KeyEvent,
    count: nat,
    out: ModalKeyOutcome,
)
    requires
        modal_key_step(old, new, key, count, out),
        old.error is Some || old.account_onboarding_open || old.help_open
            || old.onboarding_visible,
    ensures
        !(out is NotCaptured),
{
}

/// With no modal open a key changes none of them and goes on to the
/// screen.
pub proof fn law_no_modal_passes_key(
    old: ModalState,
    new: ModalState,
    key: KeyEvent,
    count: nat,
    out: ModalKeyOutcome,
)
    requires
        modal_key_step(old, new, key, count, out),
        old.error is None,
        !old.account_onboarding_open,
        !old.help_open,
        !old.onboarding_visible,
    ensures
        new == old,
        out is NotCaptured,
{
}

/// The error modal asks for no action whatever the key, touches no other
/// modal, and Esc, Enter, `q` and `x` close it.
pub proof fn law_error_modal_asks_nothing(
    old: ModalState,
    new: ModalState,
    key: KeyEvent,
    count: nat,
    out: ModalKeyOutcome,
)
    requires
        modal_key_step(old, new, key, count, out),
        old.error is Some,
    ensures
        out is Consumed,
        new.help_open == old.help_open,
        new.onboarding_visible == old.onboarding_visible,
        closes_error_modal(key) ==> new.error is None,
        !closes_error_modal(key) ==> new.error is Some && new.error->0.title == old.error->0.title
            && new.error->0.detail == old.error->0.detail,
{
}

/// Whether `new` is `old` after `Help`: the overlay opens, or closes
/// when open, and starts over scrolled to the top with no search.
pub open spec fn help_toggled(old: ModalState, new: ModalState) -> bool {
    &&& new.help_open == !old.help_open
    &&& new.help_scroll_offset == 0
    &&& new.help_query@ == Seq::<char>::empty()
    &&& new.help_selected == 0
    &&& new.error == old.error
    &&& new.account_onboarding_open == old.account_onboarding_open
    &&& same_tour(old, new)
}

/// Applies `Help`.
pub fn toggle_help(state: &mut ModalState)
    ensures
        help_toggled(*old(state), *final(state)),
{
    state.help_open = !state.help_open;
    state.help_scroll_offset = 0;
    state.help_query = String::new();
    state.help_selected = 0;
}

/// Applies `ShowOnboarding`: the feature tour starts over from its first
/// step; nothing else changes.
pub fn show_onboarding(state: &mut ModalState)
    ensures
        final(state).onboarding_visible,
        final(state).onboarding_step == 0,
        final(state).error == old(state).error,
        final(state).account_onboarding_open == old(state).account_onboarding_open,
        same_help(*old(state), *final(state)),
        *final(state) == (ModalState { onboarding_visible: true, onboarding_step: 0, ..*old(state) }),
{
    state.onboarding_visible = true;
    state.onboarding_step = 0;
}

/// A key that closes the open help overlay asks for `Help`, and applying
/// that action closes the overlay and clears its search.
pub proof fn law_help_close_key_round_trip(
    s0: ModalState,
    s1: ModalState,
    s2: ModalState,
    key: KeyEvent,
    count: nat,
    out: ModalKeyOutcome,
)
    requires
        s0.error is None,
        !s0.account_onboarding_open,
        s0.help_open,
        closes_help(key),
        modal_key_step(s0, s1, key, count, out),
        help_toggled(s1, s2),
    ensures
        out == ModalKeyOutcome::Emit(Action::Help),
        !s2.help_open,
        s2.help_query@.len() == 0,
        s2.help_selected == 0,
        s2.help_scroll_offset == 0,
{
}

/// What a key does at the prompt shown after a draft is written.
pub enum SendConfirmStep {
    /// Send the draft.
    Send,
    /// Save the draft to the mail server.
    SaveDraft,
    /// Open the draft in the editor again.
    EditAgain,
    /// Throw the draft away.
    Discard,
    /// The prompt stays as it is.
    Keep,
}

/// What a key does at the send prompt: `s` sends a draft that may be
/// sent, `d` saves a changed draft, `e` edits again (each with no
/// modifier), Esc discards; anything else leaves the prompt up.
pub open spec fn send_confirm_step(key: KeyEvent, sendable: bool, unchanged: bool) -> SendConfirmStep {
    if is_char(key, 's') && key.modifiers.bits == 0 {
        if sendable {
            SendConfirmStep::Send
        } else {
            SendConfirmStep::Keep
        }
    } else if is_char(key, 'd') && key.modifiers.bits == 0 {
        if unchanged {
            SendConfirmStep::Keep
        } else {
            SendConfirmStep::SaveDraft
        }
    } else if is_char(key, 'e') && key.modifiers.bits == 0 {
        SendConfirmStep::EditAgain
    } else if key.code == KeyCode::Esc {
        SendConfirmStep::Discard
    } else {
        SendConfirmStep::Keep
    }
}

/// What a key does at the send prompt; `sendable` says whether the draft
/// may be sent and `unchanged` whether it is as it was.
pub fn send_confirm_key(key: KeyEvent, sendable: bool, unchanged: bool) -> (r: SendConfirmStep)
    ensures
        r == send_confirm_step(key, sendable, unchanged),
{
    let plain = key.modifiers.bits == 0;
    if key_is_char(key, 's') && plain {
        if sendable {
            SendConfirmStep::Send
        } else {
            SendConfirmStep::Keep
        }
    } else if key_is_char(key, 'd') && plain {
        if unchanged {
            SendConfirmStep::Keep
        } else {
            SendConfirmStep::SaveDraft
        }
    } else if key_is_char(key, 'e') && plain {
        SendConfirmStep::EditAgain
    } else if key.code == KeyCode::Esc {
        SendConfirmStep::Discard
    } else {
        SendConfirmStep::Keep
    }
}

/// What a key does while a bulk action waits for confirmation.
pub enum BulkConfirmStep {
    /// Carry the action out (by asking for `OpenSelected`).
    Confirm,
    /// Drop the action; the status bar says it was cancelled.
    Cancel,
    /// The question stays.
    Keep,
}

/// Enter, `y` with no modifier or `Y` confirm; Esc or `n` with no
/// modifier cancel; anything else leaves the question up.
pub open spec fn bulk_confirm_step(key: KeyEvent) -> BulkConfirmStep {
    if key.code == KeyCode::Enter || (is_char(key, 'y') && key.modifiers.bits == 0) || (is_char(
        key,
        'Y',
    ) && is_plain_or_shift(key.modifiers)) {
        BulkConfirmStep::Confirm
    } else if key.code == KeyCode::Esc || (is_char(key, 'n') && key.modifiers.bits == 0) {
        BulkConfirmStep::Cancel
    } else {
        BulkConfirmStep::Keep
    }
}

/// What a key does while a bulk action waits for confirmation.
pub fn bulk_confirm_key(key: KeyEvent) -> (r: BulkConfirmStep)
    ensures
        r == bulk_confirm_step(key),
{
    let plain = key.modifiers.bits == 0;
    if key.code == KeyCode::Enter || (key_is_char(key, 'y') && plain) || (key_is_char(key, 'Y')
        && plain_or_shift(key.modifiers)) {
        BulkConfirmStep::Confirm
    } else if key.code == KeyCode::Esc || (key_is_char(key, 'n') && plain) {
        BulkConfirmStep::Cancel
    } else {
        BulkConfirmStep::Keep
    }
}

/// Shift alone.
pub open spec fn shift_only(m: KeyModifiers) -> bool {
    m.bits == crate::input::SHIFT_BIT
}

/// The action a key asks for while the unsubscribe question is open:
/// Enter, `u` or shifted `U` unsubscribe; `a` or shifted `A` also
/// archive the sender's mail; Esc cancels.
pub open spec fn unsubscribe_confirm_action(key: KeyEvent) -> Option<Action> {
    if key.code == KeyCode::Enter || (is_char(key, 'u') && key.modifiers.bits == 0) || (is_char(
        key,
        'U',
    ) && shift_only(key.modifiers)) {
        Some(Action::ConfirmUnsubscribeOnly)
    } else if (is_char(key, 'a') && key.modifiers.bits == 0) || (is_char(key, 'A') && shift_only(
        key.modifiers,
    )) {
        Some(Action::ConfirmUnsubscribeAndArchiveSender)
    } else if key.code == KeyCode::Esc {
        Some(Action::CancelUnsubscribe)
    } else {
        None
    }
}

/// The action a key asks for at the unsubscribe question.
pub fn unsubscribe_confirm_key(key: KeyEvent) -> (a: Option<Action>)
    ensures
        a == unsubscribe_confirm_action(key),
{
    let plain = key.modifiers.bits == 0;
    let shifted = key.modifiers.bits == crate::input::SHIFT_BIT;
    if key.code == KeyCode::Enter || (key_is_char(key, 'u') && plain) || (key_is_char(key, 'U')
        && shifted) {
        Some(Action::ConfirmUnsubscribeOnly)
    } else if (key_is_char(key, 'a') && plain) || (key_is_char(key, 'A') && shifted) {
        Some(Action::ConfirmUnsubscribeAndArchiveSender)
    } else if key.code == KeyCode::Esc {
        Some(Action::CancelUnsubscribe)
    } else {
        None
    }
}

/// Presets in the snooze picker.
pub const SNOOZE_PRESET_COUNT: usize = 4;

/// The snooze picker.
pub struct SnoozePanel {
    pub visible: bool,
    pub selected_index: usize,
}

/// Whether `new` and `a` follow from `key` in the snooze picker `old`:
/// Enter snoozes with the highlighted preset, Esc closes the picker, and
/// down and up move round the presets, wrapping at either end.
pub open spec fn snooze_panel_step(old: SnoozePanel, new: SnoozePanel, key: KeyEvent, a: Option<Action>) -> bool {
    let n = SNOOZE_PRESET_COUNT as int;
    if key.code == KeyCode::Enter {
        new == old && a == Some(Action::Snooze)
    } else if key.code == KeyCode::Esc {
        new == (SnoozePanel { visible: false, ..old }) && a is None
    } else if line_down_key(key) {
        &&& new.visible == old.visible
        &&& new.selected_index == (old.selected_index + 1) % n
        &&& a is None
    } else if line_up_key(key) {
        &&& new.visible == old.visible
        &&& new.selected_index == (if old.selected_index == 0 {
            n - 1
        } else {
            old.selected_index - 1
        })
        &&& a is None
    } else {
        new == old && a is None
    }
}

proof fn lemma_wrap_step(x: int)
    by (nonlinear_arith)
    requires
        x >= 0,
    ensures
        (x % 4 + 1) % 4 == (x + 1) % 4,
{
}

/// Handles a key in the snooze picker.
pub fn handle_snooze_panel_key(panel: &mut SnoozePanel, key: KeyEvent) -> (a: Option<Action>)
    ensures
        snooze_panel_step(*old(panel), *final(panel), key, a),
{
    let n = snooze_presets().len();
    if key.code == KeyCode::Enter {
        return Some(Action::Snooze);
    }
    if key.code == KeyCode::Esc {
        panel.visible = false;
    } else if key_is_char(key, 'j') || key.code == KeyCode::Down {
        panel.selected_index = (panel.selected_index % n + 1) % n;
        proof {
            lemma_wrap_step(old(panel).selected_index as int);
        }
    } else if key_is_char(key, 'k') || key.code == KeyCode::Up {
        panel.selected_index = if panel.selected_index == 0 {
            n - 1
        } else {
            panel.selected_index - 1
        };
    }
    None
}

/// Down then up in the snooze picker comes back to the same preset.
pub proof fn law_snooze_down_then_up(p0: SnoozePanel, p1: SnoozePanel, p2: SnoozePanel, down: KeyEvent, up: KeyEvent, a1: Option<Action>, a2: Option<Action>)
    requires
        p0.selected_index < SNOOZE_PRESET_COUNT,
        down.code == KeyCode::Down,
        up.code == KeyCode::Up,
        snooze_panel_step(p0, p1, down, a1),
        snooze_panel_step(p1, p2, up, a2),
    ensures
        p2 == p0,
{
}

/// What a key does in the attachment panel.
pub enum AttachmentPanelStep {
    /// Open the highlighted attachment.
    Open,
    /// Download the highlighted attachment.
    Download,
    /// Close the panel.
    Close,
    /// Nothing beyond moving the highlight, if it moved.
    Stay,
}

/// What a key does in the attachment panel, and where the highlight goes
/// among `count` attachments: Enter or `o` opens, `d` downloads, down and
/// up move without wrapping, Esc or `A` close.
pub open spec fn attachment_panel_step(key: KeyEvent, sel: int, count: int) -> (AttachmentPanelStep, int) {
    if key.code == KeyCode::Enter || is_char(key, 'o') {
        (AttachmentPanelStep::Open, sel)
    } else if is_char(key, 'd') {
        (AttachmentPanelStep::Download, sel)
    } else if line_down_key(key) {
        (AttachmentPanelStep::Stay, if sel + 1 < count {
            sel + 1
        } else {
            sel
        })
    } else if line_up_key(key) {
        (AttachmentPanelStep::Stay, sat_sub(sel, 1))
    } else if key.code == KeyCode::Esc || is_char(key, 'A') {
        (AttachmentPanelStep::Close, sel)
    } else {
        (AttachmentPanelStep::Stay, sel)
    }
}

/// Handles a key in the attachment panel with `count` attachments and the
/// highlight on `selected`.
pub fn attachment_panel_key(selected: &mut usize, count: usize, key: KeyEvent) -> (r: AttachmentPanelStep)
    ensures
        (r, *final(selected) as int) == attachment_panel_step(key, *old(selected) as int, count as int),
{
    let sel = *selected;
    if key.code == KeyCode::Enter || key_is_char(key, 'o') {
        AttachmentPanelStep::Open
    } else if key_is_char(key, 'd') {
        AttachmentPanelStep::Download
    } else if key_is_char(key, 'j') || key.code == KeyCode::Down {
        if sel < count && count - sel > 1 {
            *selected = sel + 1;
        }
        AttachmentPanelStep::Stay
    } else if key_is_char(key, 'k') || key.code == KeyCode::Up {
        *selected = sub_floor(sel, 1);
        AttachmentPanelStep::Stay
    } else if key.code == KeyCode::Esc || key_is_char(key, 'A') {
        AttachmentPanelStep::Close
    } else {
        AttachmentPanelStep::Stay
    }
}

/// What a key does in the command palette or the search bar, both of
/// which edit a line of text and take keys before the screen does.
pub enum LineInputKey {
    /// Ask for this action.
    Emit(Action),
    /// Run the highlighted palette entry.
    Confirm,
    /// Delete the last character.
    Backspace,
    /// Type this character.
    Type(char),
    /// Highlight the next palette entry.
    Next,
    /// Highlight the previous palette entry.
    Previous,
    /// The key is swallowed.
    Ignore,
}

/// What a key does in the open command palette: Enter runs the
/// highlighted entry, Esc closes it, down or Ctrl-n and up or Ctrl-p
/// move the highlight, Backspace deletes and plain or shifted characters
/// type.
pub open spec fn palette_key_step(key: KeyEvent) -> LineInputKey {
    if key.code == KeyCode::Enter {
        LineInputKey::Confirm
    } else if key.code == KeyCode::Esc {
        LineInputKey::Emit(Action::CloseCommandPalette)
    } else if key.code == KeyCode::Backspace {
        LineInputKey::Backspace
    } else if key.code == KeyCode::Down || ctrl_char(key, 'n') {
        LineInputKey::Next
    } else if key.code == KeyCode::Up || ctrl_char(key, 'p') {
        LineInputKey::Previous
    } else if types_into_help(key) {
        LineInputKey::Type(key.code->0)
    } else {
        LineInputKey::Ignore
    }
}

/// What a key does in the open command palette.
pub fn palette_key(key: KeyEvent) -> (r: LineInputKey)
    ensures
        r == palette_key_step(key),
{
    let ctrl = ctrl_alone(key.modifiers);
    if key.code == KeyCode::Enter {
        LineInputKey::Confirm
    } else if key.code == KeyCode::Esc {
        LineInputKey::Emit(Action::CloseCommandPalette)
    } else if key.code == KeyCode::Backspace {
        LineInputKey::Backspace
    } else if key.code == KeyCode::Down || (ctrl && key_is_char(key, 'n')) {
        LineInputKey::Next
    } else if key.code == KeyCode::Up || (ctrl && key_is_char(key, 'p')) {
        LineInputKey::Previous
    } else {
        match key.code {
            KeyCode::Char(c) => if plain_or_shift(key.modifiers) {
                LineInputKey::Type(c)
            } else {
                LineInputKey::Ignore
            },
            _ => LineInputKey::Ignore,
        }
    }
}

/// What a key does in the active search bar: Enter submits, Tab cycles
/// the search mode, Esc closes the bar, Backspace deletes and plain or
/// shifted characters type (each edit filters the list as it goes).
pub open spec fn search_bar_key_step(key: KeyEvent) -> LineInputKey {
    if key.code == KeyCode::Enter {
        LineInputKey::Emit(Action::SubmitSearch)
    } else if key.code == KeyCode::Tab {
        LineInputKey::Emit(Action::CycleSearchMode)
    } else if key.code == KeyCode::Esc {
        LineInputKey::Emit(Action::CloseSearch)
    } else if key.code == KeyCode::Backspace {
        LineInputKey::Backspace
    } else if types_into_help(key) {
        LineInputKey::Type(key.code->0)
    } else {
        LineInputKey::Ignore
    }
}

/// What a key does in the active search bar.
pub fn search_bar_key(key: KeyEvent) -> (r: LineInputKey)
    ensures
        r == search_bar_key_step(key),
{
    if key.code == KeyCode::Enter {
        LineInputKey::Emit(Action::SubmitSearch)
    } else if key.code == KeyCode::Tab {
        LineInputKey::Emit(Action::CycleSearchMode)
    } else if key.code == KeyCode::Esc {
        LineInputKey::Emit(Action::CloseSearch)
    } else if key.code == KeyCode::Backspace {
        LineInputKey::Backspace
    } else {
        match key.code {
            KeyCode::Char(c) => if plain_or_shift(key.modifiers) {
                LineInputKey::Type(c)
            } else {
                LineInputKey::Ignore
            },
            _ => LineInputKey::Ignore,
        }
    }
}

/// Everything that can take a key before the screen does.
pub struct KeyRoutingState {
    pub modals: ModalState,
    pub palette_visible: bool,
    pub search_bar_active: bool,
    /// The prompt after a draft is written: whether the draft may be sent
    /// and whether it is unchanged.
    pub send_confirm: Option<(bool, bool)>,
    pub bulk_confirm_pending: bool,
}

/// Who took a key, and what it asks for.
pub enum KeyRoute {
    Modal(ModalKeyOutcome),
    Palette(LineInputKey),
    SearchBar(LineInputKey),
    SendConfirm(SendConfirmStep),
    BulkConfirm(BulkConfirmStep),
    /// Nothing in front of the screen: the screen gets the key.
    Screen,
}

pub open spec fn any_modal_open(m: ModalState) -> bool {
    m.error is Some || m.account_onboarding_open || m.help_open || m.onboarding_visible
}

/// Whether `new` and `r` follow from `key` reaching `old`, with `count`
/// as in `help_after`: the modals first, then the command palette, the
/// search bar, the send prompt and the bulk-action question, each only
/// when open; only with none of them open does the screen get the key.
pub open spec fn key_route_step(old: KeyRoutingState, new: KeyRoutingState, key: KeyEvent, count: nat, r: KeyRoute) -> bool {
    if any_modal_open(old.modals) {
        &&& r matches KeyRoute::Modal(out) && modal_key_step(old.modals, new.modals, key, count, out)
        &&& new == (KeyRoutingState { modals: new.modals, ..old })
    } else {
        &&& new == old
        &&& r == (if old.palette_visible {
            KeyRoute::Palette(palette_key_step(key))
        } else if old.search_bar_active {
            KeyRoute::SearchBar(search_bar_key_step(key))
        } else {
            match old.send_confirm {
                Some((sendable, unchanged)) => KeyRoute::SendConfirm(
                    send_confirm_step(key, sendable, unchanged),
                ),
                None => if old.bulk_confirm_pending {
                    KeyRoute::BulkConfirm(bulk_confirm_step(key))
                } else {
                    KeyRoute::Screen
                },
            }
        })
    }
}

/// Offers a key to whatever stands in front of the screen.
pub fn route_key(state: &mut KeyRoutingState, key: KeyEvent, help_result_count: usize) -> (r: KeyRoute)
    ensures
        key_route_step(*old(state), *final(state), key, help_result_count as nat, r),
{
    let open = state.modals.error.is_some() || state.modals.account_onboarding_open
        || state.modals.help_open || state.modals.onboarding_visible;
    if open {
        let out = handle_modal_key(&mut state.modals, key, help_result_count);
        return KeyRoute::Modal(out);
    }
    if state.palette_visible {
        KeyRoute::Palette(palette_key(key))
    } else if state.search_bar_active {
        KeyRoute::SearchBar(search_bar_key(key))
    } else {
        match state.send_confirm {
            Some((sendable, unchanged)) => KeyRoute::SendConfirm(send_confirm_key(key, sendable, unchanged)),
            None => if state.bulk_confirm_pending {
                KeyRoute::BulkConfirm(bulk_confirm_key(key))
            } else {
                KeyRoute::Screen
            },
        }
    }
}

/// A key reaches the screen only when no modal, palette, search bar or
/// prompt is open, and then nothing in front of the screen changes.
pub proof fn law_screen_gets_key_only_when_clear(
    old: KeyRoutingState,
    new: KeyRoutingState,
    key: KeyEvent,
    count: nat,
    r: KeyRoute,
)
    requires
        key_route_step(old, new, key, count, r),
    ensures
        r is Screen <==> (!any_modal_open(old.modals) && !old.palette_visible
            && !old.search_bar_active && old.send_confirm is None && !old.bulk_confirm_pending),
        r is Screen ==> new == old,
{
}

/// What a key does in the list of a message's links.
pub enum UrlModalKey {
    /// Open the highlighted link, then close the list.
    Open,
    /// Copy the highlighted link, then close the list.
    Copy,
    Next,
    Previous,
    Close,
    Ignore,
}

/// Enter or `o` opens, `y` copies, down and up move, Esc or `q` close.
pub open spec fn url_modal_key_step(key: KeyEvent) -> UrlModalKey {
    if key.code == KeyCode::Enter || is_char(key, 'o') {
        UrlModalKey::Open
    } else if is_char(key, 'y') {
        UrlModalKey::Copy
    } else if line_down_key(key) {
        UrlModalKey::Next
    } else if line_up_key(key) {
        UrlModalKey::Previous
    } else if key.code == KeyCode::Esc || is_char(key, 'q') {
        UrlModalKey::Close
    } else {
        UrlModalKey::Ignore
    }
}

/// What a key does in the list of a message's links.
pub fn url_modal_key(key: KeyEvent) -> (r: UrlModalKey)
    ensures
        r == url_modal_key_step(key),
{
    if key.code == KeyCode::Enter || key_is_char(key, 'o') {
        UrlModalKey::Open
    } else if key_is_char(key, 'y') {
        UrlModalKey::Copy
    } else if key_is_char(key, 'j') || key.code == KeyCode::Down {
        UrlModalKey::Next
    } else if key_is_char(key, 'k') || key.code == KeyCode::Up {
        UrlModalKey::Previous
    } else if key.code == KeyCode::Esc || key_is_char(key, 'q') {
        UrlModalKey::Close
    } else {
        UrlModalKey::Ignore
    }
}

/// What a key does in the recipient picker of a new message or in the
/// label picker, both of which filter a list by what is typed.
pub enum PickerKey {
    /// Enter: take the choice.
    Confirm,
    /// Tab in the recipient picker: add the highlighted contact.
    AddRecipient,
    Close,
    Backspace,
    Next,
    Previous,
    Type(char),
    Ignore,
}

/// Enter confirms, Tab adds a recipient (recipient picker only), Esc
/// closes, Backspace deletes, down or Ctrl-n and up or Ctrl-p move, plain
/// or shifted characters type.
pub open spec fn picker_key_step(key: KeyEvent, recipients: bool) -> PickerKey {
    if key.code == KeyCode::Enter {
        PickerKey::Confirm
    } else if recipients && key.code == KeyCode::Tab {
        PickerKey::AddRecipient
    } else if key.code == KeyCode::Esc {
        PickerKey::Close
    } else if key.code == KeyCode::Backspace {
        PickerKey::Backspace
    } else if key.code == KeyCode::Down || ctrl_char(key, 'n') {
        PickerKey::Next
    } else if key.code == KeyCode::Up || ctrl_char(key, 'p') {
        PickerKey::Previous
    } else if types_into_help(key) {
        PickerKey::Type(key.code->0)
    } else {
        PickerKey::Ignore
    }
}

/// What a key does in a picker; `recipients` for the recipient picker,
/// which alone takes Tab.
pub fn picker_key(key: KeyEvent, recipients: bool) -> (r: PickerKey)
    ensures
        r == picker_key_step(key, recipients),
{
    let ctrl = ctrl_alone(key.modifiers);
    if key.code == KeyCode::Enter {
        PickerKey::Confirm
    } else if recipients && key.code == KeyCode::Tab {
        PickerKey::AddRecipient
    } else if key.code == KeyCode::Esc {
        PickerKey::Close
    } else if key.code == KeyCode::Backspace {
        PickerKey::Backspace
    } else if key.code == KeyCode::Down || (ctrl && key_is_char(key, 'n')) {
        PickerKey::Next
    } else if key.code == KeyCode::Up || (ctrl && key_is_char(key, 'p')) {
        PickerKey::Previous
    } else {
        match key.code {
            KeyCode::Char(c) => if plain_or_shift(key.modifiers) {
                PickerKey::Type(c)
            } else {
                PickerKey::Ignore
            },
            _ => PickerKey::Ignore,
        }
    }
}

} // verus!
