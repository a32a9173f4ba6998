use mxr_tui::action::Action;
use mxr_tui::navigation::{
    back_step, move_mail_cursor, move_search_cursor, open_selected_step, switch_pane, ActivePane,
    BackStep, LayoutMode, ListCursor, OpenSelectedStep, SearchCursorMove,
};
use mxr_tui::screen::Screen;
use mxr_tui::saved_search::{open_saved_search_by_index, SavedSearch};
use mxr_tui::screen::{snooze_wake_plan, SnoozeConfig, SnoozePreset};

fn cursor(selected_index: usize, scroll_offset: usize) -> ListCursor {
    ListCursor { selected_index, scroll_offset }
}

#[test]
fn mail_cursor_moves_and_scrolls() {
    let mut c = cursor(0, 0);
    for _ in 0..5 {
        assert!(move_mail_cursor(&mut c, &Action::MoveDown, 10, 3));
    }
    assert_eq!(c, cursor(5, 3));
    move_mail_cursor(&mut c, &Action::JumpBottom, 10, 3);
    assert_eq!(c, cursor(9, 7));
    move_mail_cursor(&mut c, &Action::MoveDown, 10, 3);
    assert_eq!(c, cursor(9, 7));
    move_mail_cursor(&mut c, &Action::PageUp, 10, 3);
    assert_eq!(c, cursor(6, 6));
    move_mail_cursor(&mut c, &Action::JumpTop, 10, 3);
    assert_eq!(c, cursor(0, 0));
    move_mail_cursor(&mut c, &Action::PageDown, 10, 0);
    assert_eq!(c, cursor(1, 1));
    move_mail_cursor(&mut c, &Action::PageDown, 10, 50);
    assert_eq!(c, cursor(9, 1));
}

#[test]
fn mail_cursor_viewport_jumps() {
    let mut c = cursor(3, 4);
    move_mail_cursor(&mut c, &Action::ViewportTop, 100, 20);
    assert_eq!(c, cursor(4, 4));
    move_mail_cursor(&mut c, &Action::ViewportMiddle, 100, 20);
    assert_eq!(c, cursor(14, 4));
    move_mail_cursor(&mut c, &Action::ViewportBottom, 100, 20);
    assert_eq!(c, cursor(24, 4));
    move_mail_cursor(&mut c, &Action::ViewportBottom, 12, 20);
    assert_eq!(c, cursor(11, 4));
    move_mail_cursor(&mut c, &Action::CenterCurrent, 12, 20);
    assert_eq!(c, cursor(11, 1));
    assert!(!move_mail_cursor(&mut c, &Action::Archive, 12, 20));
    assert_eq!(c, cursor(11, 1));
}

#[test]
fn search_cursor_moves_and_loads_to_end() {
    let mut sel = 0usize;
    assert!(matches!(move_search_cursor(&mut sel, &Action::MoveUp, 4, 2, false), SearchCursorMove::Moved));
    assert_eq!(sel, 0);
    move_search_cursor(&mut sel, &Action::PageDown, 4, 2, false);
    assert_eq!(sel, 2);
    assert!(matches!(move_search_cursor(&mut sel, &Action::JumpBottom, 4, 2, true), SearchCursorMove::LoadToEnd));
    assert_eq!(sel, 2);
    move_search_cursor(&mut sel, &Action::JumpBottom, 4, 2, false);
    assert_eq!(sel, 3);
    assert!(matches!(move_search_cursor(&mut sel, &Action::ViewportTop, 4, 2, false), SearchCursorMove::NotACursorAction));
}

#[test]
fn panes_cycle_by_layout() {
    assert_eq!(switch_pane(LayoutMode::ThreePane, ActivePane::MailList), ActivePane::MessageView);
    assert_eq!(switch_pane(LayoutMode::ThreePane, ActivePane::MessageView), ActivePane::Sidebar);
    assert_eq!(switch_pane(LayoutMode::FullScreen, ActivePane::Sidebar), ActivePane::MessageView);
    assert_eq!(switch_pane(LayoutMode::TwoPane, ActivePane::Sidebar), ActivePane::MailList);
    assert_eq!(switch_pane(LayoutMode::TwoPane, ActivePane::MailList), ActivePane::Sidebar);
    assert_eq!(switch_pane(LayoutMode::FullScreen, ActivePane::MailList), ActivePane::Sidebar);
}

fn search(name: &str, query: &str) -> SavedSearch {
    SavedSearch { name: name.into(), query: query.into(), search_mode: "lexical".into() }
}

#[test]
fn saved_searches_open_by_one_based_index() {
    let searches = vec![search("Unread", "is:unread"), search("Bills", "from:bank")];
    assert_eq!(open_saved_search_by_index(&searches, 0), Some(Action::ClearFilter));
    assert_eq!(
        open_saved_search_by_index(&searches, 2),
        Some(Action::SelectSavedSearch("from:bank".into(), "lexical".into()))
    );
    assert_eq!(
        open_saved_search_by_index(&searches, 1),
        Some(Action::SelectSavedSearch("is:unread".into(), "lexical".into()))
    );
    assert_eq!(open_saved_search_by_index(&searches, 3), None);
    assert_eq!(open_saved_search_by_index(&[], 1), None);
}

#[test]
fn snooze_presets_wake_days_and_hours() {
    let config = SnoozeConfig {
        morning_hour: 8,
        evening_hour: 19,
        weekend_day: "sunday".into(),
        weekend_hour: 10,
    };
    // Wednesday is 2 counting from Monday.
    assert_eq!(snooze_wake_plan(SnoozePreset::TomorrowMorning, &config, 2, false), (1, 8));
    assert_eq!(snooze_wake_plan(SnoozePreset::Tonight, &config, 2, false), (0, 19));
    assert_eq!(snooze_wake_plan(SnoozePreset::Tonight, &config, 2, true), (1, 19));
    assert_eq!(snooze_wake_plan(SnoozePreset::Weekend, &config, 2, false), (4, 10));
    assert_eq!(snooze_wake_plan(SnoozePreset::Weekend, &config, 6, false), (7, 10));
    assert_eq!(snooze_wake_plan(SnoozePreset::NextMonday, &config, 2, false), (5, 8));
    assert_eq!(snooze_wake_plan(SnoozePreset::NextMonday, &config, 0, false), (7, 8));
    let saturday = SnoozeConfig { weekend_day: "saturday".into(), ..config };
    assert_eq!(snooze_wake_plan(SnoozePreset::Weekend, &saturday, 2, false), (3, 10));
}

#[test]
fn back_undoes_the_nearest_thing() {
    let list = ActivePane::MailList;
    assert!(matches!(
        back_step(Screen::Search, list, true, true, true, LayoutMode::TwoPane),
        BackStep::ToMailboxScreen
    ));
    assert!(matches!(
        back_step(Screen::Mailbox, ActivePane::MessageView, false, false, false, LayoutMode::ThreePane),
        BackStep::Then(Action::CloseMessageView)
    ));
    assert!(matches!(
        back_step(Screen::Mailbox, list, true, true, true, LayoutMode::ThreePane),
        BackStep::Then(Action::ClearSelection)
    ));
    assert!(matches!(
        back_step(Screen::Mailbox, list, false, true, true, LayoutMode::ThreePane),
        BackStep::Then(Action::CloseSearch)
    ));
    assert!(matches!(
        back_step(Screen::Mailbox, list, false, false, true, LayoutMode::ThreePane),
        BackStep::Then(Action::ClearFilter)
    ));
    assert!(matches!(
        back_step(Screen::Mailbox, list, false, false, false, LayoutMode::ThreePane),
        BackStep::Then(Action::CloseMessageView)
    ));
    assert!(matches!(
        back_step(Screen::Mailbox, list, false, false, false, LayoutMode::TwoPane),
        BackStep::Stay
    ));
    assert!(matches!(
        back_step(Screen::Mailbox, ActivePane::Sidebar, true, true, true, LayoutMode::TwoPane),
        BackStep::Stay
    ));
}

#[test]
fn open_selected_prefers_a_pending_bulk_action() {
    assert!(matches!(open_selected_step(true, Screen::Search, true, true, true), OpenSelectedStep::ConfirmBulk));
    assert!(matches!(
        open_selected_step(false, Screen::Search, true, true, true),
        OpenSelectedStep::OpenSearchResult
    ));
    assert!(matches!(
        open_selected_step(false, Screen::Mailbox, true, false, true),
        OpenSelectedStep::Nothing
    ));
    assert!(matches!(
        open_selected_step(false, Screen::Mailbox, true, true, false),
        OpenSelectedStep::OpenSubscription
    ));
    assert!(matches!(open_selected_step(false, Screen::Mailbox, false, false, true), OpenSelectedStep::OpenRow));
    assert!(matches!(open_selected_step(false, Screen::Mailbox, false, false, false), OpenSelectedStep::Nothing));
}
