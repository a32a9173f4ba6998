use mxr_tui::action::{action_allowed_in_context, Action, AnalyticsView, ScreenContext, UiContext};

#[test]
fn contexts_name_their_screen() {
    assert_eq!(UiContext::MailboxList.screen(), ScreenContext::Mailbox);
    assert_eq!(UiContext::SearchPreview.screen(), ScreenContext::Search);
    assert_eq!(UiContext::RulesForm.screen(), ScreenContext::Rules);
    assert_eq!(UiContext::AccountsForm.screen(), ScreenContext::Accounts);
    assert_eq!(UiContext::Analytics.screen(), ScreenContext::Analytics);
    assert_eq!(UiContext::Diagnostics.screen(), ScreenContext::Diagnostics);
}

#[test]
fn context_labels() {
    assert_eq!(UiContext::MailboxSidebar.label(), "Mailbox / Sidebar");
    assert_eq!(UiContext::SearchEditor.label(), "Search / Query");
    assert_eq!(UiContext::RulesList.label(), "Rules");
    assert_eq!(UiContext::AccountsForm.label(), "Accounts / Form");
}

#[test]
fn mailbox_accepts_everything() {
    assert!(action_allowed_in_context(&Action::SaveAccountForm, UiContext::MailboxList));
    assert!(action_allowed_in_context(&Action::RefreshRules, UiContext::MailboxMessage));
}

#[test]
fn screens_refuse_other_screens_commands() {
    assert!(!action_allowed_in_context(&Action::RefreshRules, UiContext::AccountsList));
    assert!(action_allowed_in_context(&Action::RefreshRules, UiContext::RulesList));
    assert!(!action_allowed_in_context(&Action::SaveAccountForm, UiContext::SearchResults));
    assert!(action_allowed_in_context(&Action::MoveDown, UiContext::SearchResults));
    assert!(!action_allowed_in_context(&Action::MoveDown, UiContext::SearchEditor));
    assert!(action_allowed_in_context(&Action::OpenAnalyticsView(AnalyticsView::Contacts), UiContext::Analytics));
    assert!(!action_allowed_in_context(&Action::OpenAnalyticsView(AnalyticsView::Contacts), UiContext::Diagnostics));
}

#[test]
fn global_commands_are_accepted_everywhere() {
    for c in [
        UiContext::SearchEditor,
        UiContext::RulesForm,
        UiContext::Diagnostics,
        UiContext::AccountsForm,
        UiContext::Analytics,
    ] {
        assert!(action_allowed_in_context(&Action::OpenMailboxScreen, c));
        assert!(action_allowed_in_context(&Action::SyncNow, c));
    }
}
