use mxr_tui::action::Action;
use mxr_tui::connection::ErrorModalState;
use mxr_tui::input::{mail_action_key, KeyCode, KeyEvent, KeyModifiers, CONTROL_BIT};
use mxr_tui::modal_keys::{
    bulk_confirm_key, handle_modal_key, handle_snooze_panel_key, send_confirm_key,
    show_onboarding, toggle_help, unsubscribe_confirm_key, BulkConfirmStep, ModalKeyOutcome,
    ModalState, SendConfirmStep, SnoozePanel, attachment_panel_key, AttachmentPanelStep,
    palette_key, search_bar_key, LineInputKey, route_key, KeyRoute, KeyRoutingState,
    picker_key, url_modal_key, PickerKey, UrlModalKey,
};

fn closed() -> ModalState {
    ModalState {
        error: None,
        account_onboarding_open: false,
        help_open: false,
        help_query: String::new(),
        help_scroll_offset: 0,
        help_selected: 0,
        onboarding_visible: false,
        onboarding_step: 0,
    }
}

fn key(code: KeyCode) -> KeyEvent {
    KeyEvent { code, modifiers: KeyModifiers::none() }
}

fn ctrl(c: char) -> KeyEvent {
    KeyEvent { code: KeyCode::Char(c), modifiers: KeyModifiers { bits: CONTROL_BIT } }
}

fn with_error() -> ModalState {
    let mut s = closed();
    s.error = Some(ErrorModalState { title: "Oops".into(), detail: "d".into(), scroll_offset: 0 });
    s.help_open = true;
    s
}

#[test]
fn no_modal_lets_keys_through() {
    let mut s = closed();
    assert!(matches!(handle_modal_key(&mut s, key(KeyCode::Char('j')), 0), ModalKeyOutcome::NotCaptured));
    assert_eq!(s.help_scroll_offset, 0);
}

#[test]
fn error_modal_scrolls_and_closes() {
    let mut s = with_error();
    assert!(matches!(handle_modal_key(&mut s, key(KeyCode::Char('j')), 0), ModalKeyOutcome::Consumed));
    assert_eq!(s.error.as_ref().unwrap().scroll_offset, 1);
    handle_modal_key(&mut s, key(KeyCode::PageDown), 0);
    assert_eq!(s.error.as_ref().unwrap().scroll_offset, 9);
    handle_modal_key(&mut s, ctrl('u'), 0);
    assert_eq!(s.error.as_ref().unwrap().scroll_offset, 1);
    handle_modal_key(&mut s, key(KeyCode::Up), 0);
    handle_modal_key(&mut s, key(KeyCode::Up), 0);
    assert_eq!(s.error.as_ref().unwrap().scroll_offset, 0);
    // A key the modal ignores does not reach the help overlay behind it.
    assert!(matches!(handle_modal_key(&mut s, key(KeyCode::Char('?')), 0), ModalKeyOutcome::Consumed));
    assert!(s.help_open);
    assert!(matches!(handle_modal_key(&mut s, key(KeyCode::Char('x')), 0), ModalKeyOutcome::Consumed));
    assert!(s.error.is_none());
}

#[test]
fn error_modal_scroll_saturates() {
    let mut s = with_error();
    s.error.as_mut().unwrap().scroll_offset = u16::MAX - 3;
    handle_modal_key(&mut s, ctrl('d'), 0);
    assert_eq!(s.error.as_ref().unwrap().scroll_offset, u16::MAX);
    handle_modal_key(&mut s, key(KeyCode::Esc), 0);
    assert!(s.error.is_none());
}

#[test]
fn account_setup_prompt_keys() {
    let mut s = closed();
    s.account_onboarding_open = true;
    assert!(matches!(handle_modal_key(&mut s, key(KeyCode::Enter), 0), ModalKeyOutcome::CompleteAccountSetup));
    assert!(matches!(
        handle_modal_key(&mut s, key(KeyCode::Char('q')), 0),
        ModalKeyOutcome::Emit(Action::QuitView)
    ));
    assert!(s.account_onboarding_open);
    assert!(matches!(handle_modal_key(&mut s, key(KeyCode::Esc), 0), ModalKeyOutcome::Consumed));
    assert!(!s.account_onboarding_open);
}

#[test]
fn help_overlay_scrolls_searches_and_closes() {
    let mut s = closed();
    toggle_help(&mut s);
    assert!(s.help_open);
    handle_modal_key(&mut s, key(KeyCode::Down), 5);
    assert_eq!(s.help_scroll_offset, 1);
    handle_modal_key(&mut s, key(KeyCode::Char('a')), 5);
    handle_modal_key(&mut s, KeyEvent { code: KeyCode::Char('R'), modifiers: KeyModifiers::shift() }, 5);
    assert_eq!(s.help_query, "aR");
    handle_modal_key(&mut s, key(KeyCode::Char('j')), 3);
    handle_modal_key(&mut s, key(KeyCode::Char('j')), 3);
    handle_modal_key(&mut s, key(KeyCode::Char('j')), 3);
    assert_eq!(s.help_selected, 2);
    assert_eq!(s.help_scroll_offset, 1);
    handle_modal_key(&mut s, key(KeyCode::Backspace), 1);
    assert_eq!(s.help_query, "a");
    assert_eq!(s.help_selected, 0);
    assert!(matches!(handle_modal_key(&mut s, key(KeyCode::Esc), 1), ModalKeyOutcome::Emit(Action::Help)));
    toggle_help(&mut s);
    assert!(!s.help_open);
    assert_eq!(s.help_query, "");
    assert_eq!(s.help_scroll_offset, 0);
}

#[test]
fn help_page_keys_move_selection_while_searching() {
    let mut s = closed();
    s.help_open = true;
    s.help_query = "re".into();
    handle_modal_key(&mut s, ctrl('d'), 20);
    assert_eq!(s.help_selected, 8);
    handle_modal_key(&mut s, ctrl('d'), 10);
    assert_eq!(s.help_selected, 9);
    handle_modal_key(&mut s, ctrl('u'), 10);
    assert_eq!(s.help_selected, 1);
    handle_modal_key(&mut s, key(KeyCode::Backspace), 4);
    assert_eq!(s.help_query, "r");
    assert_eq!(s.help_selected, 1);
}

#[test]
fn feature_tour_keys() {
    let mut s = closed();
    show_onboarding(&mut s);
    assert!(s.onboarding_visible);
    s.onboarding_step = 2;
    assert!(matches!(handle_modal_key(&mut s, key(KeyCode::Right), 0), ModalKeyOutcome::AdvanceOnboarding));
    handle_modal_key(&mut s, key(KeyCode::Char('h')), 0);
    assert_eq!(s.onboarding_step, 1);
    assert!(matches!(handle_modal_key(&mut s, key(KeyCode::Char('q')), 0), ModalKeyOutcome::DismissOnboarding));
    show_onboarding(&mut s);
    assert_eq!(s.onboarding_step, 0);
}

#[test]
fn mail_keys_map_to_actions() {
    assert_eq!(mail_action_key(key(KeyCode::Char('e'))), Some(Action::Archive));
    assert_eq!(mail_action_key(key(KeyCode::Char('#'))), Some(Action::Trash));
    assert_eq!(mail_action_key(ctrl('!')), Some(Action::Spam));
    assert_eq!(
        mail_action_key(KeyEvent { code: KeyCode::Char('U'), modifiers: KeyModifiers::shift() }),
        Some(Action::MarkUnread)
    );
    assert_eq!(mail_action_key(key(KeyCode::Char('E'))), Some(Action::ExportThread));
    assert_eq!(mail_action_key(ctrl('e')), None);
    assert_eq!(mail_action_key(key(KeyCode::Char('z'))), None);
    assert_eq!(mail_action_key(key(KeyCode::Enter)), None);
}

#[test]
fn send_prompt_keys() {
    let s = key(KeyCode::Char('s'));
    let d = key(KeyCode::Char('d'));
    assert!(matches!(send_confirm_key(s, true, false), SendConfirmStep::Send));
    assert!(matches!(send_confirm_key(s, false, true), SendConfirmStep::Keep));
    assert!(matches!(send_confirm_key(d, true, false), SendConfirmStep::SaveDraft));
    assert!(matches!(send_confirm_key(d, false, true), SendConfirmStep::Keep));
    assert!(matches!(send_confirm_key(key(KeyCode::Char('e')), false, true), SendConfirmStep::EditAgain));
    assert!(matches!(send_confirm_key(ctrl('s'), true, false), SendConfirmStep::Keep));
    assert!(matches!(send_confirm_key(ctrl('x'), true, false), SendConfirmStep::Keep));
    assert!(matches!(
        send_confirm_key(KeyEvent { code: KeyCode::Esc, modifiers: KeyModifiers::shift() }, true, false),
        SendConfirmStep::Discard
    ));
}

#[test]
fn bulk_confirmation_keys() {
    assert!(matches!(bulk_confirm_key(key(KeyCode::Enter)), BulkConfirmStep::Confirm));
    assert!(matches!(bulk_confirm_key(key(KeyCode::Char('y'))), BulkConfirmStep::Confirm));
    assert!(matches!(
        bulk_confirm_key(KeyEvent { code: KeyCode::Char('Y'), modifiers: KeyModifiers::shift() }),
        BulkConfirmStep::Confirm
    ));
    assert!(matches!(bulk_confirm_key(ctrl('y')), BulkConfirmStep::Keep));
    assert!(matches!(bulk_confirm_key(key(KeyCode::Char('n'))), BulkConfirmStep::Cancel));
    assert!(matches!(bulk_confirm_key(key(KeyCode::Esc)), BulkConfirmStep::Cancel));
    assert!(matches!(bulk_confirm_key(key(KeyCode::Char('q'))), BulkConfirmStep::Keep));
}

#[test]
fn unsubscribe_question_keys() {
    let shift = |c: char| KeyEvent { code: KeyCode::Char(c), modifiers: KeyModifiers::shift() };
    assert_eq!(unsubscribe_confirm_key(key(KeyCode::Enter)), Some(Action::ConfirmUnsubscribeOnly));
    assert_eq!(unsubscribe_confirm_key(key(KeyCode::Char('u'))), Some(Action::ConfirmUnsubscribeOnly));
    assert_eq!(unsubscribe_confirm_key(shift('U')), Some(Action::ConfirmUnsubscribeOnly));
    assert_eq!(unsubscribe_confirm_key(key(KeyCode::Char('U'))), None);
    assert_eq!(
        unsubscribe_confirm_key(shift('A')),
        Some(Action::ConfirmUnsubscribeAndArchiveSender)
    );
    assert_eq!(
        unsubscribe_confirm_key(key(KeyCode::Char('a'))),
        Some(Action::ConfirmUnsubscribeAndArchiveSender)
    );
    assert_eq!(unsubscribe_confirm_key(key(KeyCode::Esc)), Some(Action::CancelUnsubscribe));
    assert_eq!(unsubscribe_confirm_key(ctrl('u')), None);
}

#[test]
fn snooze_picker_wraps_round_the_presets() {
    let mut p = SnoozePanel { visible: true, selected_index: 3 };
    assert_eq!(handle_snooze_panel_key(&mut p, key(KeyCode::Char('j'))), None);
    assert_eq!(p.selected_index, 0);
    handle_snooze_panel_key(&mut p, key(KeyCode::Up));
    assert_eq!(p.selected_index, 3);
    handle_snooze_panel_key(&mut p, key(KeyCode::Char('k')));
    assert_eq!(p.selected_index, 2);
    assert_eq!(handle_snooze_panel_key(&mut p, key(KeyCode::Enter)), Some(Action::Snooze));
    assert!(p.visible);
    handle_snooze_panel_key(&mut p, key(KeyCode::Esc));
    assert!(!p.visible);
    assert_eq!(p.selected_index, 2);
}

#[test]
fn attachment_panel_keys() {
    let mut sel = 0usize;
    assert!(matches!(attachment_panel_key(&mut sel, 2, key(KeyCode::Char('j'))), AttachmentPanelStep::Stay));
    assert_eq!(sel, 1);
    attachment_panel_key(&mut sel, 2, key(KeyCode::Down));
    assert_eq!(sel, 1);
    assert!(matches!(attachment_panel_key(&mut sel, 2, key(KeyCode::Char('o'))), AttachmentPanelStep::Open));
    assert!(matches!(attachment_panel_key(&mut sel, 2, key(KeyCode::Char('d'))), AttachmentPanelStep::Download));
    attachment_panel_key(&mut sel, 2, key(KeyCode::Up));
    attachment_panel_key(&mut sel, 2, key(KeyCode::Up));
    assert_eq!(sel, 0);
    assert!(matches!(
        attachment_panel_key(&mut sel, 2, KeyEvent { code: KeyCode::Char('A'), modifiers: KeyModifiers::shift() }),
        AttachmentPanelStep::Close
    ));
    assert!(matches!(attachment_panel_key(&mut sel, 0, key(KeyCode::Esc)), AttachmentPanelStep::Close));
}

#[test]
fn palette_and_search_bar_keys() {
    assert!(matches!(palette_key(key(KeyCode::Enter)), LineInputKey::Confirm));
    assert!(matches!(palette_key(key(KeyCode::Esc)), LineInputKey::Emit(Action::CloseCommandPalette)));
    assert!(matches!(palette_key(ctrl('n')), LineInputKey::Next));
    assert!(matches!(palette_key(key(KeyCode::Up)), LineInputKey::Previous));
    assert!(matches!(palette_key(key(KeyCode::Char('n'))), LineInputKey::Type('n')));
    assert!(matches!(palette_key(ctrl('x')), LineInputKey::Ignore));
    assert!(matches!(search_bar_key(key(KeyCode::Enter)), LineInputKey::Emit(Action::SubmitSearch)));
    assert!(matches!(search_bar_key(key(KeyCode::Tab)), LineInputKey::Emit(Action::CycleSearchMode)));
    assert!(matches!(search_bar_key(key(KeyCode::Esc)), LineInputKey::Emit(Action::CloseSearch)));
    assert!(matches!(search_bar_key(key(KeyCode::Backspace)), LineInputKey::Backspace));
    assert!(matches!(
        search_bar_key(KeyEvent { code: KeyCode::Char('Q'), modifiers: KeyModifiers::shift() }),
        LineInputKey::Type('Q')
    ));
    assert!(matches!(search_bar_key(key(KeyCode::Down)), LineInputKey::Ignore));
}

#[test]
fn keys_go_to_the_frontmost_taker() {
    let mut st = KeyRoutingState {
        modals: closed(),
        palette_visible: true,
        search_bar_active: true,
        send_confirm: Some((true, false)),
        bulk_confirm_pending: true,
    };
    st.modals.help_open = true;
    assert!(matches!(route_key(&mut st, key(KeyCode::Esc), 0), KeyRoute::Modal(ModalKeyOutcome::Emit(Action::Help))));
    st.modals.help_open = false;
    assert!(matches!(route_key(&mut st, key(KeyCode::Esc), 0), KeyRoute::Palette(LineInputKey::Emit(Action::CloseCommandPalette))));
    st.palette_visible = false;
    assert!(matches!(route_key(&mut st, key(KeyCode::Esc), 0), KeyRoute::SearchBar(LineInputKey::Emit(Action::CloseSearch))));
    st.search_bar_active = false;
    assert!(matches!(route_key(&mut st, key(KeyCode::Char('s')), 0), KeyRoute::SendConfirm(SendConfirmStep::Send)));
    st.send_confirm = None;
    assert!(matches!(route_key(&mut st, key(KeyCode::Char('y')), 0), KeyRoute::BulkConfirm(BulkConfirmStep::Confirm)));
    st.bulk_confirm_pending = false;
    assert!(matches!(route_key(&mut st, key(KeyCode::Char('y')), 0), KeyRoute::Screen));
}

#[test]
fn link_list_and_picker_keys() {
    assert!(matches!(url_modal_key(key(KeyCode::Char('o'))), UrlModalKey::Open));
    assert!(matches!(url_modal_key(key(KeyCode::Char('y'))), UrlModalKey::Copy));
    assert!(matches!(url_modal_key(key(KeyCode::Down)), UrlModalKey::Next));
    assert!(matches!(url_modal_key(key(KeyCode::Char('k'))), UrlModalKey::Previous));
    assert!(matches!(url_modal_key(key(KeyCode::Char('q'))), UrlModalKey::Close));
    assert!(matches!(url_modal_key(key(KeyCode::Tab)), UrlModalKey::Ignore));
    assert!(matches!(picker_key(key(KeyCode::Tab), true), PickerKey::AddRecipient));
    assert!(matches!(picker_key(key(KeyCode::Tab), false), PickerKey::Ignore));
    assert!(matches!(picker_key(ctrl('p'), false), PickerKey::Previous));
    assert!(matches!(picker_key(key(KeyCode::Char('j')), false), PickerKey::Type('j')));
    assert!(matches!(picker_key(key(KeyCode::Enter), true), PickerKey::Confirm));
    assert!(matches!(picker_key(key(KeyCode::Esc), false), PickerKey::Close));
}
