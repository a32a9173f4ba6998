use mxr_tui::account_form::{AccountFormMode, AccountSummary, AccountsPage};
use mxr_tui::action::{Action, AnalyticsView};
use mxr_tui::analytics::{
    AnalyticsState, ContactsMode, ResponseTimeDirection, StaleBallInCourt, StorageGroupBy,
    StorageMode, WrappedWindow,
};
use mxr_tui::app_state::{apply, AppRequest, AppState, LabelEntry, MailboxState, MailboxView};
use mxr_tui::mailbox::MailListMode;
use mxr_tui::modal_keys::ModalState;
use mxr_tui::navigation::{ActivePane, LayoutMode, ListCursor};
use mxr_tui::saved_search::SavedSearch;
use mxr_tui::screen::Screen;
use mxr_tui::view_settings::MessageViewSettings;

fn app() -> AppState {
    AppState {
        screen: Screen::Mailbox,
        status_message: Some("old".into()),
        should_quit: false,
        modals: ModalState {
            error: None,
            account_onboarding_open: false,
            help_open: false,
            help_query: String::new(),
            help_scroll_offset: 0,
            help_selected: 0,
            onboarding_visible: false,
            onboarding_step: 0,
        },
        palette_visible: false,
        accounts: AccountsPage::new(),
        account_list: vec![],
        selected_account: 0,
        onboarding_required: false,
        diagnostics_status: None,
        mailbox: MailboxState {
            cursor: ListCursor { selected_index: 0, scroll_offset: 0 },
            row_count: 10,
            list_mode: MailListMode::Threads,
            other_mode_row_count: 25,
            search_bar_active: false,
            visible_height: 4,
            layout: LayoutMode::TwoPane,
            pane: ActivePane::Sidebar,
            view: MailboxView::Messages,
            labels: vec![LabelEntry { id: 7, name: "INBOX".into() }],
            active_label: None,
            pending_active_label: None,
            desired_system_mailbox: None,
            saved_searches: vec![SavedSearch {
                name: "Unread".into(),
                query: "is:unread".into(),
                search_mode: "lexical".into(),
            }],
            search_active: false,
            search_query: String::new(),
            search_mode: String::new(),
            selection_count: 0,
            pending_preview_read: true,
            viewing: None,
            context: Some((5, 9)),
            attachment_panel_open: false,
            body_ready: true,
            subscription_count: 0,
            owed_count: 3,
            reply_queue_open: false,
            snippets_open: false,
            summary_thread: None,
            settings: MessageViewSettings {
                html_view: false,
                reader_mode: false,
                remote_content_enabled: false,
                signature_expanded: false,
            },
        },
        analytics: AnalyticsState {
            view: AnalyticsView::Storage,
            storage_mode: StorageMode::Breakdown,
            storage_group_by: StorageGroupBy::Sender,
            largest_limit: 50,
            largest_since_days: None,
            stale_perspective: StaleBallInCourt::Mine,
            stale_older_than_days: 7,
            stale_within_days: 90,
            contacts_mode: ContactsMode::Asymmetry,
            asymmetry_min_inbound: 3,
            decay_threshold_days: 60,
            decay_max_lookback_days: 365,
            response_time_direction: ResponseTimeDirection::IReplied,
            response_time_counterparty: None,
            response_time_since_days: Some(30),
            subscriptions_limit: 25,
            subscriptions_rank: true,
            wrapped_window: WrappedWindow::Year(2020),
            refresh_pending: false,
        },
        analytics_selected: 4,
        analytics_error: Some("e".into()),
        analytics_fresh_views: vec![AnalyticsView::Contacts],
        requests: vec![],
    }
}

fn last(a: &AppState) -> &AppRequest {
    a.requests.last().expect("a request")
}

#[test]
fn every_action_clears_the_status_first() {
    let mut a = app();
    apply(&mut a, Action::MoveDown);
    assert_eq!(a.status_message, None);
    assert_eq!(a.mailbox.cursor.selected_index, 1);
    a.status_message = Some("x".into());
    apply(&mut a, Action::Noop);
    assert_eq!(a.status_message, None);
}

#[test]
fn go_to_inbox_selects_its_label_or_remembers_it() {
    let mut a = app();
    apply(&mut a, Action::GoToInbox);
    assert_eq!(a.mailbox.pending_active_label, Some(7));
    assert_eq!(a.mailbox.pane, ActivePane::MailList);
    assert!(matches!(last(&a), AppRequest::FetchLabel(7)));
    apply(&mut a, Action::GoToSent);
    assert_eq!(a.mailbox.desired_system_mailbox.as_deref(), Some("SENT"));
}

#[test]
fn saved_search_by_index_and_clear_filter() {
    let mut a = app();
    apply(&mut a, Action::OpenSavedSearchByIndex(1));
    assert!(a.mailbox.search_active);
    assert_eq!(a.mailbox.search_query, "is:unread");
    assert!(matches!(last(&a), AppRequest::LiveSearch { query, .. } if query == "is:unread"));
    let n = a.requests.len();
    apply(&mut a, Action::OpenSavedSearchByIndex(5));
    assert_eq!(a.requests.len(), n);
    a.mailbox.cursor = ListCursor { selected_index: 3, scroll_offset: 1 };
    apply(&mut a, Action::OpenSavedSearchByIndex(0));
    assert!(!a.mailbox.search_active);
    assert_eq!(a.mailbox.cursor, ListCursor { selected_index: 0, scroll_offset: 0 });
    assert!(matches!(last(&a), AppRequest::ShowAllMail));
    assert!(!a.mailbox.pending_preview_read);
}

#[test]
fn back_clears_selection_then_closes_search() {
    let mut a = app();
    a.mailbox.pane = ActivePane::MailList;
    a.mailbox.selection_count = 3;
    a.mailbox.search_active = true;
    apply(&mut a, Action::Back);
    assert_eq!(a.mailbox.selection_count, 0);
    assert_eq!(a.status_message.as_deref(), Some("Selection cleared"));
    apply(&mut a, Action::Back);
    assert!(!a.mailbox.search_active);
    assert_eq!(a.status_message, None);
    a.screen = Screen::Rules;
    apply(&mut a, Action::Back);
    assert_eq!(a.screen, Screen::Mailbox);
}

#[test]
fn onboarding_keeps_the_mailbox_closed() {
    let mut a = app();
    a.onboarding_required = true;
    apply(&mut a, Action::OpenMailboxScreen);
    assert_eq!(a.screen, Screen::Accounts);
    assert!(a.modals.account_onboarding_open);
    a.onboarding_required = false;
    a.mailbox.layout = LayoutMode::ThreePane;
    apply(&mut a, Action::OpenMailboxScreen);
    assert_eq!(a.screen, Screen::Mailbox);
    assert_eq!(a.mailbox.pane, ActivePane::MailList);
}

#[test]
fn saving_an_invalid_form_reports_it() {
    let mut a = app();
    apply(&mut a, Action::OpenAccountFormNew);
    assert_eq!(a.screen, Screen::Accounts);
    assert!(a.accounts.form.visible);
    apply(&mut a, Action::SaveAccountForm);
    assert!(a.requests.is_empty());
    assert!(!a.accounts.operation_in_flight);
    assert!(a.accounts.last_result.as_ref().is_some_and(|r| !r.ok));
}

#[test]
fn saving_a_valid_form_asks_for_a_save() {
    let mut a = app();
    apply(&mut a, Action::OpenAccountFormNew);
    a.accounts.form.mode = AccountFormMode::SmtpOnly;
    a.accounts.form.key = "work".into();
    a.accounts.form.email = "me@work.example".into();
    a.accounts.form.smtp_host = "smtp.work.example".into();
    a.accounts.form.smtp_port = "587".into();
    a.accounts.form.smtp_password = "pw".into();
    apply(&mut a, Action::SaveAccountForm);
    assert!(a.accounts.operation_in_flight);
    assert_eq!(a.accounts.status.as_deref(), Some("Saving account..."));
    match last(&a) {
        AppRequest::SaveAccount(c) => {
            assert_eq!(c.key, "work");
            assert!(c.is_default);
        }
        _ => panic!("expected a save"),
    }
}

#[test]
fn account_list_actions() {
    let mut a = app();
    a.account_list = vec![AccountSummary {
        key: None,
        name: "rt".into(),
        email: "e".into(),
        provider_kind: "imap".into(),
        sync_kind: None,
        send_kind: None,
        sync: None,
        send: None,
        is_default: false,
        enabled: true,
    }];
    apply(&mut a, Action::SetDefaultAccount);
    assert_eq!(
        a.accounts.status.as_deref(),
        Some("Runtime-only account cannot be set default from TUI.")
    );
    apply(&mut a, Action::TestAccountForm);
    assert_eq!(a.accounts.status.as_deref(), Some("No editable account selected."));
    a.account_list[0].key = Some("rt".into());
    apply(&mut a, Action::TestAccountForm);
    assert!(matches!(last(&a), AppRequest::TestAccount(c) if c.key == "rt"));
    apply(&mut a, Action::SwitchAccount("rt".into()));
    assert_eq!(a.status_message.as_deref(), Some("Switching account..."));
}

#[test]
fn message_actions() {
    let mut a = app();
    apply(&mut a, Action::ToggleRemoteContent);
    assert_eq!(a.status_message.as_deref(), Some("Remote images shown in HTML view"));
    assert!(matches!(last(&a), AppRequest::ShowBodyAgain));
    apply(&mut a, Action::ExportThread);
    assert!(matches!(last(&a), AppRequest::ExportThread(9)));
    apply(&mut a, Action::ReplyAll);
    assert!(matches!(last(&a), AppRequest::Reply { message: 5, all: true }));
    a.mailbox.viewing = Some(5);
    apply(&mut a, Action::ToggleFullscreen);
    assert_eq!(a.mailbox.layout, LayoutMode::FullScreen);
    apply(&mut a, Action::ToggleFullscreen);
    assert_eq!(a.mailbox.layout, LayoutMode::ThreePane);
    assert_eq!(a.status_message.as_deref(), Some("Showing split view"));
    a.mailbox.context = None;
    apply(&mut a, Action::ExportThread);
    assert_eq!(a.status_message.as_deref(), Some("No message selected"));
}

#[test]
fn other_actions_are_handed_back() {
    let mut a = app();
    apply(&mut a, Action::OpenScreenerQueue);
    assert!(matches!(last(&a), AppRequest::Unhandled(Action::OpenScreenerQueue)));
    apply(&mut a, Action::Help);
    assert!(a.modals.help_open);
    apply(&mut a, Action::RefreshDiagnostics);
    assert!(matches!(last(&a), AppRequest::RefreshDiagnostics));
    apply(&mut a, Action::QuitView);
    assert!(a.should_quit);
}

#[test]
fn analytics_settings_change_and_refresh() {
    let mut a = app();
    apply(&mut a, Action::CycleStorageGroupBy);
    assert_eq!(a.analytics.storage_group_by, StorageGroupBy::Mimetype);
    assert_eq!(a.analytics_selected, 0);
    assert!(a.analytics.refresh_pending);
    apply(&mut a, Action::AdjustStaleOlderThanDays(-100));
    assert_eq!(a.analytics.stale_older_than_days, 1);
    apply(&mut a, Action::AdjustStaleOlderThanDays(5000));
    assert_eq!(a.analytics.stale_older_than_days, 3650);
    apply(&mut a, Action::AdjustStaleWithinDays(10));
    assert_eq!(a.analytics.stale_within_days, 100);
    apply(&mut a, Action::StepWrappedYear(-3));
    assert_eq!(a.analytics.wrapped_window, WrappedWindow::Year(2017));
    apply(&mut a, Action::CycleWrappedWindow);
    assert_eq!(a.analytics.wrapped_window, WrappedWindow::SinceDays(90));
    apply(&mut a, Action::CycleWrappedWindow);
    assert_eq!(a.analytics.wrapped_window, WrappedWindow::SinceDays(365));
    apply(&mut a, Action::CycleWrappedWindow);
    assert_eq!(a.analytics.wrapped_window, WrappedWindow::Ytd);
    apply(&mut a, Action::ToggleSubscriptionsRank);
    assert!(!a.analytics.subscriptions_rank);
    apply(&mut a, Action::RefreshAnalytics);
    assert_eq!(a.analytics_error, None);
    apply(&mut a, Action::RefreshContacts);
    assert!(matches!(last(&a), AppRequest::RefreshContacts));
}

#[test]
fn side_lists_and_queues() {
    let mut a = app();
    a.mailbox.cursor = ListCursor { selected_index: 6, scroll_offset: 2 };
    a.mailbox.search_active = true;
    apply(&mut a, Action::OpenOwedReplies);
    assert_eq!(a.mailbox.view, MailboxView::Owed);
    assert_eq!(a.mailbox.cursor, ListCursor { selected_index: 2, scroll_offset: 0 });
    assert!(!a.mailbox.search_active);
    assert!(matches!(last(&a), AppRequest::RefreshOwedReplies));
    apply(&mut a, Action::OpenSubscriptions);
    assert_eq!(a.mailbox.view, MailboxView::Subscriptions);
    assert_eq!(a.mailbox.cursor.selected_index, 0);
    assert!(matches!(last(&a), AppRequest::RefreshSubscriptions));
    apply(&mut a, Action::OpenReplyQueue);
    assert!(a.mailbox.reply_queue_open);
    assert_eq!(a.status_message.as_deref(), Some("Loading reply-later queue..."));
    apply(&mut a, Action::CloseReplyQueueModal);
    assert!(!a.mailbox.reply_queue_open);
    apply(&mut a, Action::SummarizeCurrentThread);
    assert_eq!(a.mailbox.summary_thread, Some(9));
    assert!(matches!(last(&a), AppRequest::SummarizeThread(9)));
    apply(&mut a, Action::FlagReplyLater);
    assert!(matches!(last(&a), AppRequest::MarkReplyLater(5)));
    a.mailbox.context = None;
    apply(&mut a, Action::FlagReplyLater);
    assert_eq!(a.status_message.as_deref(), Some("No message selected"));
}

#[test]
fn list_mode_and_search_results() {
    let mut a = app();
    a.mailbox.cursor = ListCursor { selected_index: 8, scroll_offset: 6 };
    apply(&mut a, Action::ToggleMailListMode);
    assert_eq!(a.mailbox.list_mode, MailListMode::Messages);
    assert_eq!(a.mailbox.row_count, 25);
    assert_eq!(a.mailbox.cursor.selected_index, 8);
    a.mailbox.other_mode_row_count = 3;
    apply(&mut a, Action::ToggleMailListMode);
    assert_eq!(a.mailbox.row_count, 3);
    assert_eq!(a.mailbox.cursor.selected_index, 2);
    apply(&mut a, Action::NextSearchResult);
    assert_eq!(a.mailbox.cursor.selected_index, 2);
    a.mailbox.search_query = "from:bob".into();
    a.mailbox.search_bar_active = true;
    apply(&mut a, Action::SubmitSearch);
    assert!(!a.mailbox.search_bar_active);
    assert!(a.mailbox.search_active);
    assert!(matches!(last(&a), AppRequest::LiveSearch { query, .. } if query == "from:bob"));
    apply(&mut a, Action::PrevSearchResult);
    assert_eq!(a.mailbox.cursor.selected_index, 1);
    assert_eq!(a.mailbox.cursor.scroll_offset, 1);
}

#[test]
fn analytics_views_refresh_only_when_stale() {
    let mut a = app();
    apply(&mut a, Action::OpenAnalyticsView(AnalyticsView::Contacts));
    assert_eq!(a.screen, Screen::Analytics);
    assert!(!a.mailbox.pending_preview_read);
    assert!(!a.analytics.refresh_pending);
    assert_eq!(a.analytics_selected, 0);
    assert_eq!(a.analytics_error, None);
    apply(&mut a, Action::NextAnalyticsView);
    assert_eq!(a.analytics.view, AnalyticsView::CadenceDrift);
    assert!(a.analytics.refresh_pending);
    apply(&mut a, Action::PrevAnalyticsView);
    assert_eq!(a.analytics.view, AnalyticsView::Contacts);
}
