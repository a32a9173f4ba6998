//! The application state the actions change, and the dispatcher that
//! applies an action to it. Work for the daemon, the editor or the rest of
//! the terminal program is not done here: it is queued as a request, in
//! order, for the caller to carry out.
use vstd::prelude::*;
use crate::account_form::{
    account_summary_to_config, form_data, fresh_form_opened, summary_config, AccountConfig,
    AccountFormState, AccountOperationResult, AccountSummary, AccountsPage, failure_applied,
    validation_result,
};
use crate::action::{Action, AnalyticsView, LabelId};
use crate::analytics::{
    AnalyticsState, ContactsMode, ResponseTimeDirection, StaleBallInCourt, StorageGroupBy,
    StorageMode, WrappedWindow,
};
use crate::clock::{utc_now, is_year_of, year_of, MAX_YEAR, MIN_YEAR};
use crate::modal_keys::{help_toggled, show_onboarding, toggle_help, ModalState};
use crate::mailbox::{MailListMode, MessageId, ThreadId};
use crate::navigation::{
    back_step, move_mail_cursor, switch_pane, ActivePane, BackStep, LayoutMode, ListCursor,
    back_step_spec, is_cursor_action, pane_after_switch, scroll_after, selected_after,
    scroll_to_show,
};
use crate::saved_search::SavedSearch;
use crate::screen::Screen;
use crate::text::{owned, str_eq};
use crate::view_settings::{
    toggle_view_setting, view_toggle_step, MessageViewSettings, ViewToggleOutcome,
};

verus! {

/// Work the application asks of the world outside the library. The
/// caller carries the requests out after each action, oldest first.
pub enum AppRequest {
    /// Save this account configuration.
    SaveAccount(AccountConfig),
    /// Test the connection of this account configuration.
    TestAccount(AccountConfig),
    /// Authorize this account with its provider (again, when
    /// `reauthorize`).
    AuthorizeAccount { account: AccountConfig, reauthorize: bool },
    /// Make the account with this key the default.
    SetDefaultAccount(String),
    /// Make the account with this key the default and switch to it.
    SwitchToAccount(String),
    /// Synchronise all accounts now.
    SyncNow,
    RefreshRules,
    RefreshDiagnostics,
    GenerateBugReport,
    EditConfig,
    OpenLogs,
    /// Show the details of the diagnostics pane that has the focus.
    OpenDiagnosticsDetails,
    /// Fetch the contacts analytics again.
    RefreshContacts,
    /// Load the subscriptions list.
    RefreshSubscriptions,
    /// Load the list of threads that owe a reply.
    RefreshOwedReplies,
    /// Load the reply-later queue.
    RefreshReplyQueue,
    /// Load the snippets.
    RefreshSnippets,
    /// Summarise this thread.
    SummarizeThread(ThreadId),
    /// Mark this message for reply later (a local mutation, sent on to
    /// the daemon).
    MarkReplyLater(MessageId),
    /// Load the messages under this label into the list.
    FetchLabel(LabelId),
    /// Filter the list by this query, run in this search mode, as the
    /// user types.
    LiveSearch { query: String, mode: String },
    /// Put every message back in the list, unfiltered.
    ShowAllMail,
    /// Resolve the shown body again and report in the status bar what is
    /// shown.
    ShowBodyAgain,
    /// Load and show the attachment panel of the open message.
    OpenAttachmentPanel,
    /// Show the links of the open message.
    OpenLinks,
    /// Open the message in the browser.
    OpenInBrowser,
    /// Write this thread out to a file.
    ExportThread(ThreadId),
    /// Open the editor on a reply to this message, to all its recipients
    /// when `all`.
    Reply { message: MessageId, all: bool },
    /// Open the editor to forward this message.
    Forward(MessageId),
    /// An action on state that this library does not hold (the rule
    /// editor, the search page, the screener and the other queues),
    /// handed back as it is.
    Unhandled(Action),
}

/// Which list the mailbox shows.
#[derive(Debug, Clone, Copy, PartialEq, Eq, Structural)]
pub enum MailboxView {
    Messages,
    Subscriptions,
    Owed,
}

/// A label as the mailbox knows it.
pub struct LabelEntry {
    pub id: LabelId,
    pub name: String,
}

/// The mailbox screen: the list, its filters and the open message.
pub struct MailboxState {
    pub cursor: ListCursor,
    /// Rows in the list as shown.
    pub row_count: usize,
    /// Whether the list shows threads or messages.
    pub list_mode: MailListMode,
    /// Rows the list would have in the other mode.
    pub other_mode_row_count: usize,
    /// Whether the search bar is open for typing.
    pub search_bar_active: bool,
    /// Rows of the list on screen.
    pub visible_height: usize,
    pub layout: LayoutMode,
    pub pane: ActivePane,
    pub view: MailboxView,
    pub labels: Vec<LabelEntry>,
    pub active_label: Option<LabelId>,
    /// The label whose messages are being loaded.
    pub pending_active_label: Option<LabelId>,
    /// A system mailbox to select once its label is known.
    pub desired_system_mailbox: Option<String>,
    pub saved_searches: Vec<SavedSearch>,
    /// Whether the list is filtered by a search.
    pub search_active: bool,
    pub search_query: String,
    pub search_mode: String,
    /// Messages selected for a bulk action.
    pub selection_count: usize,
    /// Whether a previewed message waits to be marked read.
    pub pending_preview_read: bool,
    /// The message open in the message pane.
    pub viewing: Option<MessageId>,
    /// The message the message actions act on (the open one, else the
    /// highlighted one), with its thread.
    pub context: Option<(MessageId, ThreadId)>,
    pub attachment_panel_open: bool,
    /// Whether the message view shows a body.
    pub body_ready: bool,
    /// Entries of the subscriptions list as loaded.
    pub subscription_count: usize,
    /// Entries of the owed-replies list as loaded.
    pub owed_count: usize,
    pub reply_queue_open: bool,
    pub snippets_open: bool,
    /// The thread the summary modal is about, when it is open.
    pub summary_thread: Option<ThreadId>,
    pub settings: MessageViewSettings,
}

/// The application state that the actions read and change.
pub struct AppState {
    pub screen: Screen,
    /// The one-line message of the status bar.
    pub status_message: Option<String>,
    pub should_quit: bool,
    pub modals: ModalState,
    pub palette_visible: bool,
    /// The accounts page with its form.
    pub accounts: AccountsPage,
    /// The accounts the accounts page lists.
    pub account_list: Vec<AccountSummary>,
    /// The highlighted row of that list.
    pub selected_account: usize,
    /// Whether the first account is still to be set up.
    pub onboarding_required: bool,
    /// The status line of the diagnostics page.
    pub diagnostics_status: Option<String>,
    pub mailbox: MailboxState,
    /// The analytics settings.
    pub analytics: AnalyticsState,
    /// The highlighted row of the analytics view.
    pub analytics_selected: usize,
    /// The error the analytics view shows, if any.
    pub analytics_error: Option<String>,
    /// The analytics views whose data is loaded and still fresh.
    pub analytics_fresh_views: Vec<AnalyticsView>,
    /// Requests not yet carried out, oldest first.
    pub requests: Vec<AppRequest>,
}

/// Whether `s` holds exactly the text `t`.
pub open spec fn says(s: Option<String>, t: Seq<char>) -> bool {
    s matches Some(v) && v@ == t
}

/// `new` is `old` with one request more at the end.
pub open spec fn one_more_request(old: Seq<AppRequest>, new: Seq<AppRequest>) -> bool {
    new.len() == old.len() + 1 && new.drop_last() =~= old
}

/// `new` is `old` with the request `r` added at the end.
pub open spec fn requested(old: AppState, new: AppState, r: AppRequest) -> bool {
    new.requests@ == old.requests@.push(r)
}

/// The accounts page with the last results cleared, as every account
/// operation starts.
pub open spec fn results_cleared(p: AccountsPage) -> AccountsPage {
    AccountsPage {
        last_result: None,
        form: AccountFormState { last_result: None, ..p.form },
        ..p
    }
}

/// `new` is `old` after a form that fails validation was submitted.
pub open spec fn submission_failed(old: AccountsPage, new: AccountsPage) -> bool {
    exists|res: AccountOperationResult, first: usize|
        validation_result(old.form, res, first) && failure_applied(old, new, res, first)
}

/// The highlighted account of the list, if the highlight is on one.
pub open spec fn highlighted(app: AppState) -> Option<AccountSummary> {
    if app.selected_account < app.account_list@.len() {
        Some(app.account_list@[app.selected_account as int])
    } else {
        None
    }
}

/// `new` is `old` with an account operation under way: the page shows
/// `status`, and the request `is_request` describes went out.
pub open spec fn operation_started(
    old: AppState,
    page: AccountsPage,
    new: AppState,
    status: Seq<char>,
) -> bool {
    &&& new.accounts == (AccountsPage { operation_in_flight: true, status: new.accounts.status, ..page })
    &&& says(new.accounts.status, status)
    &&& one_more_request(old.requests@, new.requests@)
    &&& new == (AppState { accounts: new.accounts, requests: new.requests, ..old })
}

/// The account actions.
pub open spec fn is_account_action(a: Action) -> bool {
    match a {
        Action::RefreshAccounts | Action::OpenAccountFormNew | Action::SaveAccountForm
        | Action::TestAccountForm | Action::ReauthorizeAccountForm | Action::SetDefaultAccount
        | Action::SwitchAccount(_) => true,
        _ => false,
    }
}

/// What an account action does to the state `old`.
pub open spec fn account_step(old: AppState, a: Action, new: AppState) -> bool {
    let cleared = results_cleared(old.accounts);
    match a {
        Action::RefreshAccounts => new == (AppState {
            accounts: AccountsPage { refresh_pending: true, ..old.accounts },
            ..old
        }),
        Action::OpenAccountFormNew => {
            &&& new.screen == Screen::Accounts
            &&& new.modals == (ModalState { account_onboarding_open: false, ..old.modals })
            &&& if old.accounts.new_account_draft is Some {
                new.accounts == (AccountsPage {
                    resume_new_account_draft_prompt_open: true,
                    ..old.accounts
                })
            } else {
                fresh_form_opened(old.accounts, new.accounts)
            }
            &&& new == (AppState { screen: new.screen, modals: new.modals, accounts: new.accounts, ..old })
        },
        Action::SaveAccountForm => {
            let is_default = (match highlighted(old) {
                Some(s) => s.is_default,
                None => false,
            }) || old.account_list@.len() == 0;
            save_step(old, is_default, new)
        },
        Action::TestAccountForm => if old.accounts.form.visible {
            if cleared.form.invalid_fields().len() > 0 {
                submission_failed(cleared, new.accounts) && new == (AppState { accounts: new.accounts, ..old })
            } else {
                &&& operation_started(old, cleared, new, "Testing account..."@)
                &&& new.requests@.last() matches AppRequest::TestAccount(c) && form_data(cleared.form, false, c)
            }
        } else {
            match highlighted(old) {
                Some(s) if s.key is Some => {
                    &&& operation_started(old, cleared, new, "Testing account..."@)
                    &&& new.requests@.last() == AppRequest::TestAccount(summary_config(s))
                },
                _ => {
                    &&& says(new.accounts.status, "No editable account selected."@)
                    &&& new == (AppState {
                        accounts: AccountsPage { status: new.accounts.status, ..old.accounts },
                        ..old
                    })
                },
            }
        },
        Action::ReauthorizeAccountForm => if cleared.form.invalid_fields().len() > 0 {
            submission_failed(cleared, new.accounts) && new == (AppState { accounts: new.accounts, ..old })
        } else {
            &&& operation_started(old, cleared, new, "Authorizing Gmail account..."@)
            &&& new.requests@.last() matches AppRequest::AuthorizeAccount { account, reauthorize }
                && form_data(cleared.form, false, account) && reauthorize
        },
        Action::SetDefaultAccount => match highlighted(old) {
            Some(s) if s.key is Some => {
                &&& operation_started(old, old.accounts, new, "Setting default account..."@)
                &&& new.requests@.last() matches AppRequest::SetDefaultAccount(k) && k@ == s.key->0@
            },
            _ => {
                &&& says(new.accounts.status, "Runtime-only account cannot be set default from TUI."@)
                &&& new == (AppState {
                    accounts: AccountsPage { status: new.accounts.status, ..old.accounts },
                    ..old
                })
            },
        },
        Action::SwitchAccount(key) => {
            &&& requested(old, new, AppRequest::SwitchToAccount(key))
            &&& says(new.status_message, "Switching account..."@)
            &&& new == (AppState { requests: new.requests, status_message: new.status_message, ..old })
        },
        _ => new == old,
    }
}

/// Runs the form's validation; a failure is reported on the page.
fn validate_or_report(page: &mut AccountsPage) -> (ok: bool)
    ensures
        ok == (old(page).form.invalid_fields().len() == 0),
        ok ==> *final(page) == *old(page),
        !ok ==> submission_failed(*old(page), *final(page)),
{
    match page.form.validation_failure() {
        Some((res, first)) => {
            let ghost r = res;
            let ghost before = *page;
            page.fail_account_form_submission(res, first);
            assert(validation_result(before.form, r, first));
            assert(failure_applied(before, *page, r, first));
            false
        },
        None => true,
    }
}

fn clear_results(page: &mut AccountsPage)
    ensures
        *final(page) == results_cleared(*old(page)),
{
    page.last_result = None;
    page.form.last_result = None;
}

fn start_operation(app: &mut AppState, r: AppRequest, status: &str)
    ensures
        final(app).accounts == (AccountsPage { operation_in_flight: true, status: final(app).accounts.status, ..old(app).accounts }),
        says(final(app).accounts.status, status@),
        final(app).requests@ == old(app).requests@.push(r),
        *final(app) == (AppState { accounts: final(app).accounts, requests: final(app).requests, ..*old(app) }),
{
    app.accounts.operation_in_flight = true;
    app.requests.push(r);
    app.accounts.status = Some(owned(status));
}

fn open_account_form_new(app: &mut AppState)
    ensures
        account_step(*old(app), Action::OpenAccountFormNew, *final(app)),
{
    if app.accounts.new_account_draft.is_some() {
        app.accounts.resume_new_account_draft_prompt_open = true;
    } else {
        app.accounts.open_new_account_form();
    }
    app.modals.account_onboarding_open = false;
    app.screen = Screen::Accounts;
}

/// What saving the form with the given default flag does.
pub open spec fn save_step(old: AppState, is_default: bool, new: AppState) -> bool {
    let cleared = results_cleared(old.accounts);
    if cleared.form.invalid_fields().len() > 0 {
        submission_failed(cleared, new.accounts) && new == (AppState { accounts: new.accounts, ..old })
    } else {
        &&& operation_started(old, cleared, new, "Saving account..."@)
        &&& new.requests@.last() matches AppRequest::SaveAccount(c) && form_data(cleared.form, is_default, c)
    }
}

fn save_with(app: &mut AppState, is_default: bool)
    ensures
        save_step(*old(app), is_default, *final(app)),
{
    clear_results(&mut app.accounts);
    if !validate_or_report(&mut app.accounts) {
        return;
    }
    let data = app.accounts.form.data(is_default);
    start_operation(app, AppRequest::SaveAccount(data), "Saving account...");
}

fn save_account_form(app: &mut AppState)
    ensures
        account_step(*old(app), Action::SaveAccountForm, *final(app)),
{
    let has_row = app.selected_account < app.account_list.len();
    let is_default = (has_row && app.account_list[app.selected_account].is_default)
        || app.account_list.len() == 0;
    assert(is_default == ((match highlighted(*old(app)) {
        Some(s) => s.is_default,
        None => false,
    }) || old(app).account_list@.len() == 0));
    save_with(app, is_default);
}

#[verifier::rlimit(60)]
fn test_account_form(app: &mut AppState)
    ensures
        account_step(*old(app), Action::TestAccountForm, *final(app)),
{
    if app.accounts.form.visible {
        clear_results(&mut app.accounts);
        if !validate_or_report(&mut app.accounts) {
            return;
        }
        let data = app.accounts.form.data(false);
        start_operation(app, AppRequest::TestAccount(data), "Testing account...");
    } else {
        let config = if app.selected_account < app.account_list.len() {
            account_summary_to_config(&app.account_list[app.selected_account])
        } else {
            None
        };
        match config {
            Some(c) => {
                clear_results(&mut app.accounts);
                start_operation(app, AppRequest::TestAccount(c), "Testing account...");
            },
            None => {
                app.accounts.status = Some(owned("No editable account selected."));
            },
        }
    }
}

fn reauthorize_account_form(app: &mut AppState)
    ensures
        account_step(*old(app), Action::ReauthorizeAccountForm, *final(app)),
{
    clear_results(&mut app.accounts);
    if !validate_or_report(&mut app.accounts) {
        return;
    }
    let data = app.accounts.form.data(false);
    start_operation(
        app,
        AppRequest::AuthorizeAccount { account: data, reauthorize: true },
        "Authorizing Gmail account...",
    );
}

fn set_default_account(app: &mut AppState)
    ensures
        account_step(*old(app), Action::SetDefaultAccount, *final(app)),
{
    let key = if app.selected_account < app.account_list.len() {
        match &app.account_list[app.selected_account].key {
            Some(k) => Some(owned(k.as_str())),
            None => None,
        }
    } else {
        None
    };
    match key {
        Some(k) => {
            start_operation(app, AppRequest::SetDefaultAccount(k), "Setting default account...");
        },
        None => {
            app.accounts.status = Some(owned("Runtime-only account cannot be set default from TUI."));
        },
    }
}

/// Applies an account action.
pub fn apply_account_action(app: &mut AppState, action: Action)
    requires
        is_account_action(action),
    ensures
        account_step(*old(app), action, *final(app)),
{
    match action {
        Action::RefreshAccounts => {
            app.accounts.refresh_pending = true;
        },
        Action::OpenAccountFormNew => open_account_form_new(app),
        Action::SaveAccountForm => save_account_form(app),
        Action::TestAccountForm => test_account_form(app),
        Action::ReauthorizeAccountForm => reauthorize_account_form(app),
        Action::SetDefaultAccount => set_default_account(app),
        Action::SwitchAccount(key) => {
            app.requests.push(AppRequest::SwitchToAccount(key));
            app.status_message = Some(owned("Switching account..."));
        },
        _ => {},
    }
}

/// The actions on the command palette and the help overlay.
pub open spec fn is_modal_action(a: Action) -> bool {
    a is OpenCommandPalette || a is CloseCommandPalette || a is Help
}

/// What a palette or help action does: the palette opens or closes,
/// `Help` opens or closes the help overlay afresh.
pub open spec fn modal_step(old: AppState, a: Action, new: AppState) -> bool {
    match a {
        Action::OpenCommandPalette => new == (AppState { palette_visible: !old.palette_visible, ..old }),
        Action::CloseCommandPalette => new == (AppState { palette_visible: false, ..old }),
        Action::Help => help_toggled(old.modals, new.modals) && new == (AppState { modals: new.modals, ..old }),
        _ => new == old,
    }
}

/// Applies a palette or help action.
pub fn apply_modal_action(app: &mut AppState, action: Action)
    requires
        is_modal_action(action),
    ensures
        modal_step(*old(app), action, *final(app)),
{
    match action {
        Action::OpenCommandPalette => {
            app.palette_visible = !app.palette_visible;
        },
        Action::CloseCommandPalette => {
            app.palette_visible = false;
        },
        _ => {
            toggle_help(&mut app.modals);
        },
    }
}

/// The diagnostics actions.
pub open spec fn is_diagnostics_action(a: Action) -> bool {
    match a {
        Action::RefreshDiagnostics | Action::GenerateBugReport | Action::EditConfig
        | Action::OpenLogs | Action::ShowOnboarding | Action::OpenDiagnosticsPaneDetails => true,
        _ => false,
    }
}

/// What a diagnostics action does: each asks for its work, the editor and
/// detail views saying so in the status bar and the bug report on the
/// diagnostics page; `ShowOnboarding` starts the feature tour over.
pub open spec fn diagnostics_step(old: AppState, a: Action, new: AppState) -> bool {
    match a {
        Action::RefreshDiagnostics => requested(old, new, AppRequest::RefreshDiagnostics)
            && new == (AppState { requests: new.requests, ..old }),
        Action::GenerateBugReport => {
            &&& requested(old, new, AppRequest::GenerateBugReport)
            &&& says(new.diagnostics_status, "Generating bug report..."@)
            &&& new == (AppState { requests: new.requests, diagnostics_status: new.diagnostics_status, ..old })
        },
        Action::EditConfig => {
            &&& requested(old, new, AppRequest::EditConfig)
            &&& says(new.status_message, "Opening config in editor..."@)
            &&& new == (AppState { requests: new.requests, status_message: new.status_message, ..old })
        },
        Action::OpenLogs => {
            &&& requested(old, new, AppRequest::OpenLogs)
            &&& says(new.status_message, "Opening log file in editor..."@)
            &&& new == (AppState { requests: new.requests, status_message: new.status_message, ..old })
        },
        Action::ShowOnboarding => {
            &&& new.modals.onboarding_visible
            &&& new.modals.onboarding_step == 0
            &&& new.modals == (ModalState { onboarding_visible: true, onboarding_step: 0, ..old.modals })
            &&& new == (AppState { modals: new.modals, ..old })
        },
        Action::OpenDiagnosticsPaneDetails => {
            &&& requested(old, new, AppRequest::OpenDiagnosticsDetails)
            &&& says(new.status_message, "Opening diagnostics details..."@)
            &&& new == (AppState { requests: new.requests, status_message: new.status_message, ..old })
        },
        _ => new == old,
    }
}

/// Applies a diagnostics action.
pub fn apply_diagnostics_action(app: &mut AppState, action: Action)
    requires
        is_diagnostics_action(action),
    ensures
        diagnostics_step(*old(app), action, *final(app)),
{
    match action {
        Action::RefreshDiagnostics => {
            app.requests.push(AppRequest::RefreshDiagnostics);
        },
        Action::GenerateBugReport => {
            app.requests.push(AppRequest::GenerateBugReport);
            app.diagnostics_status = Some(owned("Generating bug report..."));
        },
        Action::EditConfig => {
            app.requests.push(AppRequest::EditConfig);
            app.status_message = Some(owned("Opening config in editor..."));
        },
        Action::OpenLogs => {
            app.requests.push(AppRequest::OpenLogs);
            app.status_message = Some(owned("Opening log file in editor..."));
        },
        Action::ShowOnboarding => {
            show_onboarding(&mut app.modals);
        },
        _ => {
            app.requests.push(AppRequest::OpenDiagnosticsDetails);
            app.status_message = Some(owned("Opening diagnostics details..."));
        },
    }
}

/// The screen actions this library carries out.
pub open spec fn is_screen_action(a: Action) -> bool {
    match a {
        Action::OpenMailboxScreen | Action::OpenRulesScreen | Action::OpenDiagnosticsScreen
        | Action::OpenAccountsScreen | Action::SyncNow => true,
        _ => false,
    }
}

/// What a screen action does. While the first account is still to be set
/// up the mailbox stays closed: the accounts screen shows, with the setup
/// prompt when no account is listed and no form is open. Leaving for the
/// mailbox, rules or diagnostics closes the account form, keeping a new
/// account's input as a draft; the rules, diagnostics and accounts pages
/// are refreshed on opening.
pub open spec fn screen_step(old: AppState, a: Action, new: AppState) -> bool {
    let no_preview = MailboxState { pending_preview_read: false, ..old.mailbox };
    match a {
        Action::OpenMailboxScreen => if old.onboarding_required {
            new == (AppState {
                screen: Screen::Accounts,
                modals: ModalState {
                    account_onboarding_open: old.account_list@.len() == 0 && !old.accounts.form.visible,
                    ..old.modals
                },
                ..old
            })
        } else {
            &&& crate::account_form::form_closed(old.accounts, new.accounts)
            &&& new == (AppState {
                screen: Screen::Mailbox,
                accounts: new.accounts,
                mailbox: MailboxState {
                    pane: if old.mailbox.layout == LayoutMode::ThreePane {
                        ActivePane::MailList
                    } else {
                        old.mailbox.pane
                    },
                    ..old.mailbox
                },
                ..old
            })
        },
        Action::OpenRulesScreen => {
            &&& crate::account_form::form_closed(old.accounts, new.accounts)
            &&& requested(old, new, AppRequest::RefreshRules)
            &&& new == (AppState {
                screen: Screen::Rules,
                accounts: new.accounts,
                mailbox: no_preview,
                requests: new.requests,
                ..old
            })
        },
        Action::OpenDiagnosticsScreen => {
            &&& crate::account_form::form_closed(old.accounts, new.accounts)
            &&& requested(old, new, AppRequest::RefreshDiagnostics)
            &&& new == (AppState {
                screen: Screen::Diagnostics,
                accounts: new.accounts,
                mailbox: no_preview,
                requests: new.requests,
                ..old
            })
        },
        Action::OpenAccountsScreen => new == (AppState {
            screen: Screen::Accounts,
            accounts: AccountsPage { refresh_pending: true, ..old.accounts },
            mailbox: no_preview,
            ..old
        }),
        Action::SyncNow => requested(old, new, AppRequest::SyncNow) && new == (AppState {
            requests: new.requests,
            ..old
        }),
        _ => new == old,
    }
}

fn open_mailbox_screen(app: &mut AppState)
    ensures
        screen_step(*old(app), Action::OpenMailboxScreen, *final(app)),
{
    if app.onboarding_required {
        app.screen = Screen::Accounts;
        app.modals.account_onboarding_open = app.account_list.len() == 0 && !app.accounts.form.visible;
        return;
    }
    app.accounts.maybe_preserve_new_account_form_draft();
    app.screen = Screen::Mailbox;
    if app.mailbox.layout == LayoutMode::ThreePane {
        app.mailbox.pane = ActivePane::MailList;
    }
}

fn open_rules_screen(app: &mut AppState)
    ensures
        screen_step(*old(app), Action::OpenRulesScreen, *final(app)),
{
    app.accounts.maybe_preserve_new_account_form_draft();
    app.mailbox.pending_preview_read = false;
    app.screen = Screen::Rules;
    app.requests.push(AppRequest::RefreshRules);
}

fn open_diagnostics_screen(app: &mut AppState)
    ensures
        screen_step(*old(app), Action::OpenDiagnosticsScreen, *final(app)),
{
    app.accounts.maybe_preserve_new_account_form_draft();
    app.mailbox.pending_preview_read = false;
    app.screen = Screen::Diagnostics;
    app.requests.push(AppRequest::RefreshDiagnostics);
}

/// Applies a screen action.
pub fn apply_screen_action(app: &mut AppState, action: Action)
    requires
        is_screen_action(action),
    ensures
        screen_step(*old(app), action, *final(app)),
{
    match action {
        Action::OpenMailboxScreen => open_mailbox_screen(app),
        Action::OpenRulesScreen => open_rules_screen(app),
        Action::OpenDiagnosticsScreen => open_diagnostics_screen(app),
        Action::OpenAccountsScreen => {
            app.mailbox.pending_preview_read = false;
            app.screen = Screen::Accounts;
            app.accounts.refresh_pending = true;
        },
        _ => {
            app.requests.push(AppRequest::SyncNow);
        },
    }
}

/// `new` is `old` with `a` handed back unhandled.
pub open spec fn unhandled(old: AppState, a: Action, new: AppState) -> bool {
    requested(old, new, AppRequest::Unhandled(a)) && new == (AppState { requests: new.requests, ..old })
}

/// `new` is `old` with the label `id` selected: the mailbox shows its
/// messages once they are loaded.
pub open spec fn label_selected(old: AppState, id: LabelId, new: AppState) -> bool {
    &&& requested(old, new, AppRequest::FetchLabel(id))
    &&& new == (AppState {
        screen: Screen::Mailbox,
        mailbox: MailboxState {
            view: MailboxView::Messages,
            pending_active_label: Some(id),
            desired_system_mailbox: None,
            pane: ActivePane::MailList,
            ..old.mailbox
        },
        requests: new.requests,
        ..old
    })
}

/// `new` is `old` with every filter cleared: all mail, from the top.
pub open spec fn filter_cleared(old: AppState, new: AppState) -> bool {
    &&& requested(old, new, AppRequest::ShowAllMail)
    &&& new == (AppState {
        mailbox: MailboxState {
            view: MailboxView::Messages,
            active_label: None,
            pending_active_label: None,
            pending_preview_read: false,
            desired_system_mailbox: None,
            search_active: false,
            cursor: ListCursor { selected_index: 0, scroll_offset: 0 },
            ..old.mailbox
        },
        requests: new.requests,
        ..old
    })
}

/// `new` is `old` with the mailbox search closed: all mail, from the top.
pub open spec fn search_closed(old: AppState, new: AppState) -> bool {
    &&& requested(old, new, AppRequest::ShowAllMail)
    &&& new == (AppState {
        mailbox: MailboxState {
            search_active: false,
            cursor: ListCursor { selected_index: 0, scroll_offset: 0 },
            ..old.mailbox
        },
        requests: new.requests,
        ..old
    })
}

/// `new` is `old` with the message pane closed: two panes, the list
/// focused, no message open.
pub open spec fn message_view_closed(old: AppState, new: AppState) -> bool {
    new == (AppState {
        mailbox: MailboxState {
            attachment_panel_open: false,
            layout: LayoutMode::TwoPane,
            pane: ActivePane::MailList,
            pending_preview_read: false,
            viewing: None,
            body_ready: false,
            ..old.mailbox
        },
        ..old
    })
}

/// `new` is `old` with the bulk selection cleared, which the status bar
/// says.
pub open spec fn selection_cleared(old: AppState, new: AppState) -> bool {
    &&& says(new.status_message, "Selection cleared"@)
    &&& new == (AppState {
        mailbox: MailboxState { selection_count: 0, ..old.mailbox },
        status_message: new.status_message,
        ..old
    })
}

/// `new` is `old` with the list filtered by the search `query` in `mode`.
pub open spec fn search_started(old: AppState, query: Seq<char>, mode: Seq<char>, new: AppState) -> bool {
    &&& new.mailbox.search_query@ == query
    &&& new.mailbox.search_mode@ == mode
    &&& one_more_request(old.requests@, new.requests@)
    &&& new.requests@.last() matches AppRequest::LiveSearch { query: q, mode: m } && q@ == query && m@
        == mode
    &&& new == (AppState {
        mailbox: MailboxState {
            view: MailboxView::Messages,
            search_active: true,
            pane: ActivePane::MailList,
            search_query: new.mailbox.search_query,
            search_mode: new.mailbox.search_mode,
            ..old.mailbox
        },
        requests: new.requests,
        ..old
    })
}

/// Whether label `i` is the first one called `name`.
pub open spec fn is_first_named(labels: Seq<LabelEntry>, name: Seq<char>, i: int) -> bool {
    &&& 0 <= i < labels.len()
    &&& labels[i].name@ == name
    &&& forall|j: int| 0 <= j < i ==> labels[j].name@ != name
}

/// `new` is `old` after going to the system mailbox `name`: its label is
/// selected when known, else it is remembered for when it is.
pub open spec fn system_mailbox_opened(old: AppState, name: Seq<char>, new: AppState) -> bool {
    if exists|i: int| is_first_named(old.mailbox.labels@, name, i) {
        forall|i: int|
            is_first_named(old.mailbox.labels@, name, i) ==> label_selected(
                old,
                old.mailbox.labels@[i].id,
                new,
            )
    } else {
        &&& new.mailbox.desired_system_mailbox matches Some(n) && n@ == name
        &&& new == (AppState {
            mailbox: MailboxState { desired_system_mailbox: new.mailbox.desired_system_mailbox, ..old.mailbox },
            ..old
        })
    }
}

/// `new` is `old` with the list cursor moved by `a`.
pub open spec fn cursor_moved(old: AppState, a: Action, new: AppState) -> bool {
    let m = old.mailbox;
    &&& new.mailbox.cursor.selected_index == selected_after(
        a,
        m.cursor.selected_index as int,
        m.cursor.scroll_offset as int,
        m.row_count as int,
        m.visible_height as int,
    )
    &&& new.mailbox.cursor.scroll_offset == scroll_after(
        a,
        m.cursor.selected_index as int,
        m.cursor.scroll_offset as int,
        m.row_count as int,
        m.visible_height as int,
    )
    &&& new == (AppState { mailbox: MailboxState { cursor: new.mailbox.cursor, ..old.mailbox }, ..old })
}

/// The mailbox actions.
pub open spec fn is_mailbox_action(a: Action) -> bool {
    match a {
        Action::MoveDown | Action::MoveUp | Action::JumpTop | Action::JumpBottom | Action::PageDown
        | Action::PageUp | Action::ViewportTop | Action::ViewportMiddle | Action::ViewportBottom
        | Action::CenterCurrent | Action::SwitchPane | Action::Back | Action::QuitView
        | Action::ClearSelection | Action::GoToInbox | Action::GoToStarred | Action::GoToSent
        | Action::GoToDrafts | Action::GoToAllMail | Action::GoToLabel | Action::CloseMessageView
        | Action::SelectLabel(_) | Action::OpenSavedSearchByIndex(_) | Action::SelectSavedSearch(_, _)
        | Action::ClearFilter | Action::CloseSearch | Action::OpenSubscriptions
        | Action::OpenOwedReplies | Action::FlagReplyLater | Action::OpenReplyQueue
        | Action::CloseReplyQueueModal | Action::OpenSnippets | Action::CloseSnippetsModal
        | Action::SummarizeCurrentThread | Action::CloseSummaryModal | Action::ToggleMailListMode
        | Action::SubmitSearch | Action::NextSearchResult | Action::PrevSearchResult => true,
        _ => false,
    }
}

/// `new` is `old` switched to the list `view` of `count` entries: every
/// filter dropped, the list focused, the highlight held to the list.
pub open spec fn side_list_opened(old: AppState, view: MailboxView, count: usize, new: AppState) -> bool {
    let m = old.mailbox;
    let last: usize = if count > 0 { (count - 1) as usize } else { 0 };
    new == (AppState {
        screen: Screen::Mailbox,
        mailbox: MailboxState {
            view,
            active_label: None,
            pending_active_label: None,
            pending_preview_read: false,
            desired_system_mailbox: None,
            search_active: false,
            pane: ActivePane::MailList,
            cursor: ListCursor {
                selected_index: if m.cursor.selected_index < last {
                    m.cursor.selected_index
                } else {
                    last
                },
                scroll_offset: 0,
            },
            ..m
        },
        requests: new.requests,
        ..old
    })
}

/// What a mailbox action does. The moves on the search screen, and the
/// actions that act on the search page there, are handed back.
pub open spec fn mailbox_step(old: AppState, a: Action, new: AppState) -> bool {
    let m = old.mailbox;
    let on_search = old.screen == Screen::Search;
    match a {
        Action::MoveDown | Action::MoveUp | Action::JumpTop | Action::JumpBottom | Action::PageDown
        | Action::PageUp => if on_search {
            unhandled(old, a, new)
        } else {
            cursor_moved(old, a, new)
        },
        Action::ViewportTop | Action::ViewportMiddle | Action::ViewportBottom
        | Action::CenterCurrent => cursor_moved(old, a, new),
        Action::SwitchPane => if on_search {
            unhandled(old, a, new)
        } else {
            new == (AppState {
                mailbox: MailboxState { pane: pane_after_switch(m.layout, m.pane), ..m },
                ..old
            })
        },
        Action::Back => match back_step_spec(
            old.screen,
            m.pane,
            m.selection_count > 0,
            m.search_active,
            m.active_label is Some,
            m.layout,
        ) {
            BackStep::ToMailboxScreen => new == (AppState { screen: Screen::Mailbox, ..old }),
            BackStep::Then(next) => match next {
                Action::CloseMessageView => message_view_closed(old, new),
                Action::ClearSelection => selection_cleared(old, new),
                Action::CloseSearch => search_closed(old, new),
                Action::ClearFilter => filter_cleared(old, new),
                _ => false,
            },
            BackStep::Stay => new == old,
        },
        Action::QuitView => new == (AppState { should_quit: true, ..old }),
        Action::ClearSelection => selection_cleared(old, new),
        Action::GoToInbox => system_mailbox_opened(old, "INBOX"@, new),
        Action::GoToStarred => system_mailbox_opened(old, "STARRED"@, new),
        Action::GoToSent => system_mailbox_opened(old, "SENT"@, new),
        Action::GoToDrafts => system_mailbox_opened(old, "DRAFT"@, new),
        Action::GoToAllMail | Action::GoToLabel | Action::ClearFilter => filter_cleared(old, new),
        Action::CloseMessageView => if on_search {
            unhandled(old, a, new)
        } else {
            message_view_closed(old, new)
        },
        Action::SelectLabel(id) => label_selected(old, id, new),
        Action::OpenSavedSearchByIndex(i) => if i == 0 {
            filter_cleared(old, new)
        } else if i <= m.saved_searches@.len() {
            let s = m.saved_searches@[i - 1];
            if on_search {
                unhandled(old, Action::SelectSavedSearch(s.query, s.search_mode), new)
            } else {
                search_started(old, s.query@, s.search_mode@, new)
            }
        } else {
            new == old
        },
        Action::SelectSavedSearch(q, mode) => if on_search {
            unhandled(old, a, new)
        } else {
            search_started(old, q@, mode@, new)
        },
        Action::CloseSearch => search_closed(old, new),
        Action::OpenSubscriptions => {
            &&& side_list_opened(old, MailboxView::Subscriptions, m.subscription_count, new)
            &&& new.requests@ == (if m.subscription_count == 0 {
                old.requests@.push(AppRequest::RefreshSubscriptions)
            } else {
                old.requests@
            })
        },
        Action::OpenOwedReplies => {
            &&& side_list_opened(old, MailboxView::Owed, m.owed_count, new)
            &&& requested(old, new, AppRequest::RefreshOwedReplies)
        },
        Action::FlagReplyLater => match m.context {
            Some((id, _)) => requested(old, new, AppRequest::MarkReplyLater(id)) && new == (AppState {
                requests: new.requests,
                ..old
            }),
            None => only_said(old, "No message selected"@, new),
        },
        Action::OpenReplyQueue => {
            &&& requested(old, new, AppRequest::RefreshReplyQueue)
            &&& says(new.status_message, "Loading reply-later queue..."@)
            &&& new == (AppState {
                mailbox: MailboxState { reply_queue_open: true, ..m },
                requests: new.requests,
                status_message: new.status_message,
                ..old
            })
        },
        Action::CloseReplyQueueModal => new == (AppState {
            mailbox: MailboxState { reply_queue_open: false, ..m },
            ..old
        }),
        Action::OpenSnippets => {
            &&& requested(old, new, AppRequest::RefreshSnippets)
            &&& says(new.status_message, "Loading snippets..."@)
            &&& new == (AppState {
                mailbox: MailboxState { snippets_open: true, ..m },
                requests: new.requests,
                status_message: new.status_message,
                ..old
            })
        },
        Action::CloseSnippetsModal => new == (AppState {
            mailbox: MailboxState { snippets_open: false, ..m },
            ..old
        }),
        Action::SummarizeCurrentThread => match m.context {
            Some((_, t)) => {
                &&& requested(old, new, AppRequest::SummarizeThread(t))
                &&& says(new.status_message, "Summarizing thread..."@)
                &&& new == (AppState {
                    mailbox: MailboxState { summary_thread: Some(t), ..m },
                    requests: new.requests,
                    status_message: new.status_message,
                    ..old
                })
            },
            None => only_said(old, "No message selected"@, new),
        },
        Action::CloseSummaryModal => new == (AppState {
            mailbox: MailboxState { summary_thread: None, ..m },
            ..old
        }),
        Action::ToggleMailListMode => if m.view == MailboxView::Subscriptions {
            new == old
        } else if on_search {
            unhandled(old, a, new)
        } else {
            let last: usize = if m.other_mode_row_count > 0 {
                (m.other_mode_row_count - 1) as usize
            } else {
                0
            };
            new == (AppState {
                mailbox: MailboxState {
                    list_mode: if m.list_mode == MailListMode::Threads {
                        MailListMode::Messages
                    } else {
                        MailListMode::Threads
                    },
                    row_count: m.other_mode_row_count,
                    other_mode_row_count: m.row_count,
                    cursor: ListCursor {
                        selected_index: if m.cursor.selected_index < last {
                            m.cursor.selected_index
                        } else {
                            last
                        },
                        ..m.cursor
                    },
                    ..m
                },
                ..old
            })
        },
        Action::SubmitSearch => if on_search {
            unhandled(old, a, new)
        } else if m.search_query@.len() == 0 {
            new == (AppState {
                mailbox: MailboxState { search_bar_active: false, pane: ActivePane::MailList, ..m },
                ..old
            })
        } else {
            &&& one_more_request(old.requests@, new.requests@)
            &&& new.requests@.last() matches AppRequest::LiveSearch { query, mode } && query@
                == m.search_query@ && mode@ == m.search_mode@
            &&& new == (AppState {
                mailbox: MailboxState {
                    search_bar_active: false,
                    search_active: true,
                    pane: ActivePane::MailList,
                    ..m
                },
                requests: new.requests,
                ..old
            })
        },
        Action::NextSearchResult | Action::PrevSearchResult => {
            let sel = m.cursor.selected_index as int;
            let next = if a is NextSearchResult {
                if m.search_active && sel + 1 < m.row_count { sel + 1 } else { sel }
            } else {
                if m.search_active && sel > 0 { sel - 1 } else { sel }
            };
            if next == sel {
                new == old
            } else {
                new == (AppState {
                    mailbox: MailboxState {
                        cursor: ListCursor {
                            selected_index: next as usize,
                            scroll_offset: scroll_to_show(
                                next,
                                m.cursor.scroll_offset as int,
                                m.visible_height as int,
                            ) as usize,
                        },
                        ..m
                    },
                    ..old
                })
            }
        },
        _ => new == old,
    }
}

proof fn lemma_first_named_unique(labels: Seq<LabelEntry>, name: Seq<char>, i: int, k: int)
    requires
        is_first_named(labels, name, i),
        is_first_named(labels, name, k),
    ensures
        i == k,
{
    if i < k {
        assert(labels[i].name@ != name);
    } else if k < i {
        assert(labels[k].name@ != name);
    }
}

fn find_label(labels: &Vec<LabelEntry>, name: &str) -> (r: Option<usize>)
    ensures
        r matches Some(i) ==> is_first_named(labels@, name@, i as int),
        r is None ==> !exists|i: int| is_first_named(labels@, name@, i),
{
    let mut i: usize = 0;
    while i < labels.len()
        invariant
            i <= labels@.len(),
            forall|j: int| 0 <= j < i ==> labels@[j].name@ != name@,
        decreases labels.len() - i,
    {
        if str_eq(labels[i].name.as_str(), name) {
            return Some(i);
        }
        i = i + 1;
    }
    None
}

fn select_label(app: &mut AppState, id: LabelId)
    ensures
        label_selected(*old(app), id, *final(app)),
{
    app.mailbox.view = MailboxView::Messages;
    app.requests.push(AppRequest::FetchLabel(id));
    app.mailbox.pending_active_label = Some(id);
    app.mailbox.desired_system_mailbox = None;
    app.mailbox.pane = ActivePane::MailList;
    app.screen = Screen::Mailbox;
}

fn clear_filter(app: &mut AppState)
    ensures
        filter_cleared(*old(app), *final(app)),
{
    app.mailbox.view = MailboxView::Messages;
    app.mailbox.active_label = None;
    app.mailbox.pending_active_label = None;
    app.mailbox.pending_preview_read = false;
    app.mailbox.desired_system_mailbox = None;
    app.mailbox.search_active = false;
    app.requests.push(AppRequest::ShowAllMail);
    app.mailbox.cursor = ListCursor { selected_index: 0, scroll_offset: 0 };
}

fn close_search(app: &mut AppState)
    ensures
        search_closed(*old(app), *final(app)),
{
    app.mailbox.search_active = false;
    app.requests.push(AppRequest::ShowAllMail);
    app.mailbox.cursor = ListCursor { selected_index: 0, scroll_offset: 0 };
}

fn close_message_view(app: &mut AppState)
    ensures
        message_view_closed(*old(app), *final(app)),
{
    app.mailbox.attachment_panel_open = false;
    app.mailbox.layout = LayoutMode::TwoPane;
    app.mailbox.pane = ActivePane::MailList;
    app.mailbox.pending_preview_read = false;
    app.mailbox.viewing = None;
    app.mailbox.body_ready = false;
}

fn clear_selection(app: &mut AppState)
    ensures
        selection_cleared(*old(app), *final(app)),
{
    app.mailbox.selection_count = 0;
    app.status_message = Some(owned("Selection cleared"));
}

fn start_search(app: &mut AppState, query: String, mode: String)
    ensures
        search_started(*old(app), query@, mode@, *final(app)),
{
    app.mailbox.view = MailboxView::Messages;
    app.mailbox.search_active = true;
    app.mailbox.pane = ActivePane::MailList;
    app.mailbox.search_query = owned(query.as_str());
    app.mailbox.search_mode = owned(mode.as_str());
    app.requests.push(AppRequest::LiveSearch { query, mode });
}

fn hand_back(app: &mut AppState, a: Action)
    ensures
        unhandled(*old(app), a, *final(app)),
{
    app.requests.push(AppRequest::Unhandled(a));
}

fn open_system_mailbox(app: &mut AppState, name: &str)
    ensures
        system_mailbox_opened(*old(app), name@, *final(app)),
{
    match find_label(&app.mailbox.labels, name) {
        Some(i) => {
            let ghost labels = app.mailbox.labels@;
            let id = app.mailbox.labels[i].id;
            select_label(app, id);
            assert forall|k: int| is_first_named(labels, name@, k) implies label_selected(
                *old(app),
                labels[k].id,
                *app,
            ) by {
                lemma_first_named_unique(labels, name@, i as int, k);
            }
        },
        None => {
            app.mailbox.desired_system_mailbox = Some(owned(name));
        },
    }
}

fn go_back(app: &mut AppState)
    ensures
        mailbox_step(*old(app), Action::Back, *final(app)),
{
    let step = back_step(
        app.screen,
        app.mailbox.pane,
        app.mailbox.selection_count > 0,
        app.mailbox.search_active,
        app.mailbox.active_label.is_some(),
        app.mailbox.layout,
    );
    match step {
        BackStep::ToMailboxScreen => {
            app.screen = Screen::Mailbox;
        },
        BackStep::Then(next) => match next {
            Action::CloseMessageView => close_message_view(app),
            Action::ClearSelection => clear_selection(app),
            Action::CloseSearch => close_search(app),
            _ => clear_filter(app),
        },
        BackStep::Stay => {},
    }
}

fn open_saved_search_at(app: &mut AppState, index: usize)
    ensures
        mailbox_step(*old(app), Action::OpenSavedSearchByIndex(index), *final(app)),
{
    if index == 0 {
        clear_filter(app);
        return;
    }
    if index > app.mailbox.saved_searches.len() {
        return;
    }
    let query = app.mailbox.saved_searches[index - 1].query.clone();
    let mode = app.mailbox.saved_searches[index - 1].search_mode.clone();
    if app.screen == Screen::Search {
        hand_back(app, Action::SelectSavedSearch(query, mode));
    } else {
        start_search(app, query, mode);
    }
}

fn move_cursor(app: &mut AppState, action: &Action)
    requires
        is_cursor_action(*action),
    ensures
        cursor_moved(*old(app), *action, *final(app)),
{
    let rows = app.mailbox.row_count;
    let height = app.mailbox.visible_height;
    move_mail_cursor(&mut app.mailbox.cursor, action, rows, height);
}

#[verifier::rlimit(100)]
#[verifier::spinoff_prover]
fn reset_for_side_list(app: &mut AppState, view: MailboxView, count: usize)
    ensures
        side_list_opened(*old(app), view, count, *final(app)),
        final(app).requests == old(app).requests,
{
    let last = if count > 0 { count - 1 } else { 0 };
    app.mailbox.view = view;
    app.mailbox.active_label = None;
    app.mailbox.pending_active_label = None;
    app.mailbox.pending_preview_read = false;
    app.mailbox.desired_system_mailbox = None;
    app.mailbox.search_active = false;
    app.screen = Screen::Mailbox;
    app.mailbox.pane = ActivePane::MailList;
    let sel = if app.mailbox.cursor.selected_index < last {
        app.mailbox.cursor.selected_index
    } else {
        last
    };
    app.mailbox.cursor = ListCursor { selected_index: sel, scroll_offset: 0 };
}

fn open_subscriptions(app: &mut AppState)
    ensures
        mailbox_step(*old(app), Action::OpenSubscriptions, *final(app)),
{
    let count = app.mailbox.subscription_count;
    reset_for_side_list(app, MailboxView::Subscriptions, count);
    if count == 0 {
        app.requests.push(AppRequest::RefreshSubscriptions);
    }
}

fn open_owed_replies(app: &mut AppState)
    ensures
        mailbox_step(*old(app), Action::OpenOwedReplies, *final(app)),
{
    let count = app.mailbox.owed_count;
    reset_for_side_list(app, MailboxView::Owed, count);
    app.requests.push(AppRequest::RefreshOwedReplies);
}

#[verifier::rlimit(100)]
#[verifier::spinoff_prover]
fn apply_mailbox_queue_action(app: &mut AppState, action: Action)
    requires
        action is FlagReplyLater || action is OpenReplyQueue || action is CloseReplyQueueModal
            || action is OpenSnippets || action is CloseSnippetsModal
            || action is SummarizeCurrentThread || action is CloseSummaryModal,
    ensures
        mailbox_step(*old(app), action, *final(app)),
{
    match action {
        Action::FlagReplyLater => match app.mailbox.context {
            Some((id, _)) => {
                app.requests.push(AppRequest::MarkReplyLater(id));
            },
            None => {
                app.status_message = Some(owned("No message selected"));
            },
        },
        Action::OpenReplyQueue => {
            app.mailbox.reply_queue_open = true;
            app.requests.push(AppRequest::RefreshReplyQueue);
            app.status_message = Some(owned("Loading reply-later queue..."));
        },
        Action::CloseReplyQueueModal => {
            app.mailbox.reply_queue_open = false;
        },
        Action::OpenSnippets => {
            app.mailbox.snippets_open = true;
            app.requests.push(AppRequest::RefreshSnippets);
            app.status_message = Some(owned("Loading snippets..."));
        },
        Action::CloseSnippetsModal => {
            app.mailbox.snippets_open = false;
        },
        Action::SummarizeCurrentThread => match app.mailbox.context {
            Some((_, t)) => {
                app.mailbox.summary_thread = Some(t);
                app.requests.push(AppRequest::SummarizeThread(t));
                app.status_message = Some(owned("Summarizing thread..."));
            },
            None => {
                app.status_message = Some(owned("No message selected"));
            },
        },
        _ => {
            app.mailbox.summary_thread = None;
        },
    }
}

fn toggle_list_mode(app: &mut AppState)
    ensures
        mailbox_step(*old(app), Action::ToggleMailListMode, *final(app)),
{
    if app.mailbox.view == MailboxView::Subscriptions {
        return;
    }
    if app.screen == Screen::Search {
        hand_back(app, Action::ToggleMailListMode);
        return;
    }
    app.mailbox.list_mode = match app.mailbox.list_mode {
        MailListMode::Threads => MailListMode::Messages,
        MailListMode::Messages => MailListMode::Threads,
    };
    let other = app.mailbox.other_mode_row_count;
    app.mailbox.other_mode_row_count = app.mailbox.row_count;
    app.mailbox.row_count = other;
    let last = if other > 0 { other - 1 } else { 0 };
    if app.mailbox.cursor.selected_index >= last {
        app.mailbox.cursor.selected_index = last;
    }
}

#[verifier::rlimit(100)]
#[verifier::spinoff_prover]
fn submit_search(app: &mut AppState)
    ensures
        mailbox_step(*old(app), Action::SubmitSearch, *final(app)),
{
    if app.screen == Screen::Search {
        hand_back(app, Action::SubmitSearch);
        return;
    }
    app.mailbox.search_bar_active = false;
    if crate::text::chars_of(app.mailbox.search_query.as_str()).len() > 0 {
        app.mailbox.search_active = true;
        let query = owned(app.mailbox.search_query.as_str());
        let mode = owned(app.mailbox.search_mode.as_str());
        app.requests.push(AppRequest::LiveSearch { query, mode });
    }
    app.mailbox.pane = ActivePane::MailList;
}

fn step_search_result(app: &mut AppState, forward: bool)
    ensures
        mailbox_step(
            *old(app),
            if forward { Action::NextSearchResult } else { Action::PrevSearchResult },
            *final(app),
        ),
{
    let sel = app.mailbox.cursor.selected_index;
    if !app.mailbox.search_active {
        return;
    }
    let next = if forward {
        if sel < app.mailbox.row_count && app.mailbox.row_count - sel > 1 {
            sel + 1
        } else {
            return;
        }
    } else {
        if sel > 0 {
            sel - 1
        } else {
            return;
        }
    };
    let scroll = crate::navigation::show_row(next, app.mailbox.cursor.scroll_offset, app.mailbox.visible_height);
    app.mailbox.cursor = ListCursor { selected_index: next, scroll_offset: scroll };
}

/// Applies a mailbox action.
pub fn apply_mailbox_action(app: &mut AppState, action: Action)
    requires
        is_mailbox_action(action),
    ensures
        mailbox_step(*old(app), action, *final(app)),
{
    let on_search = app.screen == Screen::Search;
    match action {
        Action::MoveDown | Action::MoveUp | Action::JumpTop | Action::JumpBottom | Action::PageDown
        | Action::PageUp => {
            if on_search {
                hand_back(app, action);
            } else {
                move_cursor(app, &action);
            }
        },
        Action::ViewportTop | Action::ViewportMiddle | Action::ViewportBottom
        | Action::CenterCurrent => move_cursor(app, &action),
        Action::SwitchPane => {
            if on_search {
                hand_back(app, action);
            } else {
                app.mailbox.pane = switch_pane(app.mailbox.layout, app.mailbox.pane);
            }
        },
        Action::Back => go_back(app),
        Action::QuitView => {
            app.should_quit = true;
        },
        Action::ClearSelection => clear_selection(app),
        Action::GoToInbox => open_system_mailbox(app, "INBOX"),
        Action::GoToStarred => open_system_mailbox(app, "STARRED"),
        Action::GoToSent => open_system_mailbox(app, "SENT"),
        Action::GoToDrafts => open_system_mailbox(app, "DRAFT"),
        Action::GoToAllMail | Action::GoToLabel | Action::ClearFilter => clear_filter(app),
        Action::CloseMessageView => {
            if on_search {
                hand_back(app, action);
            } else {
                close_message_view(app);
            }
        },
        Action::SelectLabel(id) => select_label(app, id),
        Action::OpenSavedSearchByIndex(i) => open_saved_search_at(app, i),
        Action::SelectSavedSearch(q, mode) => {
            if on_search {
                hand_back(app, Action::SelectSavedSearch(q, mode));
            } else {
                start_search(app, q, mode);
            }
        },
        Action::CloseSearch => close_search(app),
        Action::OpenSubscriptions => open_subscriptions(app),
        Action::OpenOwedReplies => open_owed_replies(app),
        Action::ToggleMailListMode => toggle_list_mode(app),
        Action::SubmitSearch => submit_search(app),
        Action::NextSearchResult => step_search_result(app, true),
        Action::PrevSearchResult => step_search_result(app, false),
        _ => apply_mailbox_queue_action(app, action),
    }
}

/// The message and compose actions this library carries out.
pub open spec fn is_message_action(a: Action) -> bool {
    match a {
        Action::ToggleReaderMode | Action::ToggleHtmlView | Action::ToggleRemoteContent
        | Action::ToggleSignature | Action::AttachmentList | Action::OpenLinks
        | Action::OpenInBrowser | Action::ToggleFullscreen | Action::ExportThread | Action::Reply
        | Action::ReplyAll | Action::Forward => true,
        _ => false,
    }
}

/// The status bar text after a view setting changes, when it has one of
/// its own.
pub open spec fn toggle_notice(out: ViewToggleOutcome) -> Option<Seq<char>> {
    match out {
        ViewToggleOutcome::ReaderNeedsTextView => Some("Switch to text view to use reading view"@),
        ViewToggleOutcome::RemoteImages(true) => Some("Remote images shown in HTML view"@),
        ViewToggleOutcome::RemoteImages(false) => Some("Remote images blocked in HTML view"@),
        _ => None,
    }
}

/// `new` is `old` with the status bar saying `t` and nothing else changed.
pub open spec fn only_said(old: AppState, t: Seq<char>, new: AppState) -> bool {
    says(new.status_message, t) && new == (AppState { status_message: new.status_message, ..old })
}

/// What a message or compose action does. View settings change as
/// `view_toggle_step` says; a setting that changes what is shown asks for
/// the body again, and the status bar says what the setting notice says.
/// The attachment list closes when open and is asked for when not; the
/// full-message toggle leaves full screen for three panes, or goes full
/// screen on an open message (elsewhere, and on the search screen, it is
/// handed back); export, reply and forward act on the context message, or
/// say there is none (reply and forward then do nothing).
pub open spec fn message_step(old: AppState, a: Action, new: AppState) -> bool {
    let m = old.mailbox;
    match a {
        Action::ToggleReaderMode | Action::ToggleHtmlView | Action::ToggleRemoteContent
        | Action::ToggleSignature => exists|out: ViewToggleOutcome| {
            &&& view_toggle_step(m.settings, new.mailbox.settings, a, m.body_ready, out)
            &&& match toggle_notice(out) {
                Some(t) => says(new.status_message, t),
                None => new.status_message == old.status_message,
            }
            &&& new.requests@ == (if out is Rerender || out is RemoteImages {
                old.requests@.push(AppRequest::ShowBodyAgain)
            } else {
                old.requests@
            })
            &&& new == (AppState {
                mailbox: MailboxState { settings: new.mailbox.settings, ..m },
                status_message: new.status_message,
                requests: new.requests,
                ..old
            })
        },
        Action::AttachmentList => if m.attachment_panel_open {
            new == (AppState { mailbox: MailboxState { attachment_panel_open: false, ..m }, ..old })
        } else {
            requested(old, new, AppRequest::OpenAttachmentPanel) && new == (AppState {
                requests: new.requests,
                ..old
            })
        },
        Action::OpenLinks => requested(old, new, AppRequest::OpenLinks) && new == (AppState {
            requests: new.requests,
            ..old
        }),
        Action::OpenInBrowser => requested(old, new, AppRequest::OpenInBrowser) && new == (AppState {
            requests: new.requests,
            ..old
        }),
        Action::ToggleFullscreen => if old.screen == Screen::Search {
            unhandled(old, a, new)
        } else if m.layout == LayoutMode::FullScreen {
            &&& says(new.status_message, "Showing split view"@)
            &&& new == (AppState {
                mailbox: MailboxState { layout: LayoutMode::ThreePane, ..m },
                status_message: new.status_message,
                ..old
            })
        } else if m.viewing is Some {
            &&& says(new.status_message, "Showing full message view"@)
            &&& new == (AppState {
                mailbox: MailboxState { layout: LayoutMode::FullScreen, ..m },
                status_message: new.status_message,
                ..old
            })
        } else {
            unhandled(old, a, new)
        },
        Action::ExportThread => match m.context {
            Some((_, thread)) => {
                &&& says(new.status_message, "Exporting thread..."@)
                &&& requested(old, new, AppRequest::ExportThread(thread))
                &&& new == (AppState { status_message: new.status_message, requests: new.requests, ..old })
            },
            None => only_said(old, "No message selected"@, new),
        },
        Action::Reply | Action::ReplyAll => match m.context {
            Some((id, _)) => requested(old, new, AppRequest::Reply { message: id, all: a is ReplyAll })
                && new == (AppState { requests: new.requests, ..old }),
            None => new == old,
        },
        Action::Forward => match m.context {
            Some((id, _)) => requested(old, new, AppRequest::Forward(id)) && new == (AppState {
                requests: new.requests,
                ..old
            }),
            None => new == old,
        },
        _ => new == old,
    }
}

fn toggle_setting(app: &mut AppState, action: &Action)
    requires
        *action is ToggleReaderMode || *action is ToggleHtmlView || *action is ToggleRemoteContent
            || *action is ToggleSignature,
    ensures
        message_step(*old(app), *action, *final(app)),
{
    let ready = app.mailbox.body_ready;
    let out = toggle_view_setting(&mut app.mailbox.settings, action, ready);
    match out {
        ViewToggleOutcome::ReaderNeedsTextView => {
            app.status_message = Some(owned("Switch to text view to use reading view"));
        },
        ViewToggleOutcome::RemoteImages(shown) => {
            app.status_message = Some(
                owned(
                    if shown {
                        "Remote images shown in HTML view"
                    } else {
                        "Remote images blocked in HTML view"
                    },
                ),
            );
            app.requests.push(AppRequest::ShowBodyAgain);
        },
        ViewToggleOutcome::Rerender => {
            app.requests.push(AppRequest::ShowBodyAgain);
        },
        _ => {},
    }
    assert(view_toggle_step(old(app).mailbox.settings, app.mailbox.settings, *action, ready, out));
}

fn toggle_fullscreen(app: &mut AppState)
    ensures
        message_step(*old(app), Action::ToggleFullscreen, *final(app)),
{
    if app.screen == Screen::Search {
        hand_back(app, Action::ToggleFullscreen);
    } else if app.mailbox.layout == LayoutMode::FullScreen {
        app.mailbox.layout = LayoutMode::ThreePane;
        app.status_message = Some(owned("Showing split view"));
    } else if app.mailbox.viewing.is_some() {
        app.mailbox.layout = LayoutMode::FullScreen;
        app.status_message = Some(owned("Showing full message view"));
    } else {
        hand_back(app, Action::ToggleFullscreen);
    }
}

/// Applies a message or compose action.
pub fn apply_message_action(app: &mut AppState, action: Action)
    requires
        is_message_action(action),
    ensures
        message_step(*old(app), action, *final(app)),
{
    match action {
        Action::ToggleReaderMode | Action::ToggleHtmlView | Action::ToggleRemoteContent
        | Action::ToggleSignature => toggle_setting(app, &action),
        Action::AttachmentList => {
            if app.mailbox.attachment_panel_open {
                app.mailbox.attachment_panel_open = false;
            } else {
                app.requests.push(AppRequest::OpenAttachmentPanel);
            }
        },
        Action::OpenLinks => {
            app.requests.push(AppRequest::OpenLinks);
        },
        Action::OpenInBrowser => {
            app.requests.push(AppRequest::OpenInBrowser);
        },
        Action::ToggleFullscreen => toggle_fullscreen(app),
        Action::ExportThread => match app.mailbox.context {
            Some((_, thread)) => {
                app.requests.push(AppRequest::ExportThread(thread));
                app.status_message = Some(owned("Exporting thread..."));
            },
            None => {
                app.status_message = Some(owned("No message selected"));
            },
        },
        Action::Reply | Action::ReplyAll => {
            match app.mailbox.context {
                Some((id, _)) => {
                    app.requests.push(AppRequest::Reply { message: id, all: matches!(action, Action::ReplyAll) });
                },
                None => {},
            }
        },
        _ => match app.mailbox.context {
            Some((id, _)) => {
                app.requests.push(AppRequest::Forward(id));
            },
            None => {},
        },
    }
}

/// Which handler an action goes to.
pub open spec fn app_step(old: AppState, a: Action, new: AppState) -> bool {
    let cleared = AppState { status_message: None, ..old };
    if is_account_action(a) {
        account_step(cleared, a, new)
    } else if is_modal_action(a) {
        modal_step(cleared, a, new)
    } else if is_diagnostics_action(a) {
        diagnostics_step(cleared, a, new)
    } else if is_screen_action(a) {
        screen_step(cleared, a, new)
    } else if is_mailbox_action(a) {
        mailbox_step(cleared, a, new)
    } else if is_message_action(a) {
        message_step(cleared, a, new)
    } else if is_analytics_setting_action(a) {
        exists|now: int|
            crate::clock::clock_reading(now) && is_year_of(year_of(now), now) && analytics_step(
                cleared,
                a,
                year_of(now) as i32,
                new,
            )
    } else if is_analytics_view_action(a) {
        analytics_view_step(cleared, a, new)
    } else if a is Noop {
        new == cleared
    } else {
        unhandled(cleared, a, new)
    }
}

/// Applies an action: the status message is cleared first, then the
/// action goes to the handler of its group. Actions on state this library
/// does not hold are handed back as requests. Stepping the summary's year
/// must stay within `i32`.
pub fn apply(app: &mut AppState, action: Action)
    requires
        action matches Action::StepWrappedYear(d) ==> year_step_fits(old(app).analytics.wrapped_window, d),
    ensures
        app_step(*old(app), action, *final(app)),
{
    app.status_message = None;
    if matches!(action, Action::RefreshAccounts | Action::OpenAccountFormNew | Action::SaveAccountForm
        | Action::TestAccountForm | Action::ReauthorizeAccountForm | Action::SetDefaultAccount
        | Action::SwitchAccount(_)) {
        apply_account_action(app, action);
    } else if matches!(action, Action::OpenCommandPalette | Action::CloseCommandPalette | Action::Help) {
        apply_modal_action(app, action);
    } else if matches!(action, Action::RefreshDiagnostics | Action::GenerateBugReport | Action::EditConfig
        | Action::OpenLogs | Action::ShowOnboarding | Action::OpenDiagnosticsPaneDetails) {
        apply_diagnostics_action(app, action);
    } else if matches!(action, Action::OpenMailboxScreen | Action::OpenRulesScreen
        | Action::OpenDiagnosticsScreen | Action::OpenAccountsScreen | Action::SyncNow) {
        apply_screen_action(app, action);
    } else if matches!(action, Action::MoveDown | Action::MoveUp | Action::JumpTop | Action::JumpBottom
        | Action::PageDown | Action::PageUp | Action::ViewportTop | Action::ViewportMiddle
        | Action::ViewportBottom | Action::CenterCurrent | Action::SwitchPane | Action::Back
        | Action::QuitView | Action::ClearSelection | Action::GoToInbox | Action::GoToStarred
        | Action::GoToSent | Action::GoToDrafts | Action::GoToAllMail | Action::GoToLabel
        | Action::CloseMessageView | Action::SelectLabel(_) | Action::OpenSavedSearchByIndex(_)
        | Action::SelectSavedSearch(_, _) | Action::ClearFilter | Action::CloseSearch
        | Action::OpenSubscriptions | Action::OpenOwedReplies | Action::FlagReplyLater
        | Action::OpenReplyQueue | Action::CloseReplyQueueModal | Action::OpenSnippets
        | Action::CloseSnippetsModal | Action::SummarizeCurrentThread | Action::CloseSummaryModal
        | Action::ToggleMailListMode | Action::SubmitSearch | Action::NextSearchResult
        | Action::PrevSearchResult) {
        apply_mailbox_action(app, action);
    } else if matches!(action, Action::ToggleReaderMode | Action::ToggleHtmlView
        | Action::ToggleRemoteContent | Action::ToggleSignature | Action::AttachmentList
        | Action::OpenLinks | Action::OpenInBrowser | Action::ToggleFullscreen | Action::ExportThread
        | Action::Reply | Action::ReplyAll | Action::Forward) {
        apply_message_action(app, action);
    } else if matches!(action, Action::RefreshAnalytics | Action::CycleStorageMode
        | Action::CycleStorageGroupBy | Action::ToggleStalePerspective
        | Action::AdjustStaleOlderThanDays(_) | Action::AdjustStaleWithinDays(_)
        | Action::CycleContactsMode | Action::RefreshContacts | Action::ToggleResponseTimeDirection
        | Action::ToggleSubscriptionsRank | Action::CycleWrappedWindow | Action::StepWrappedYear(_)) {
        apply_analytics_setting(app, action);
    } else if matches!(action, Action::OpenAnalyticsScreen | Action::OpenAnalyticsView(_)
        | Action::NextAnalyticsView | Action::PrevAnalyticsView) {
        apply_analytics_view_action(app, action);
    } else if !matches!(action, Action::Noop) {
        hand_back(app, action);
    }
}

/// Actions that never write the status bar.
pub open spec fn leaves_status_alone(a: Action) -> bool {
    match a {
        Action::MoveDown | Action::MoveUp | Action::JumpTop | Action::JumpBottom | Action::PageDown
        | Action::PageUp | Action::ViewportTop | Action::ViewportMiddle | Action::ViewportBottom
        | Action::CenterCurrent | Action::SwitchPane | Action::QuitView | Action::SelectLabel(_)
        | Action::ClearFilter | Action::CloseSearch | Action::CloseMessageView
        | Action::RefreshAccounts | Action::OpenCommandPalette | Action::CloseCommandPalette
        | Action::Help | Action::OpenMailboxScreen | Action::OpenRulesScreen
        | Action::OpenAccountsScreen | Action::Noop => true,
        _ => false,
    }
}

/// Every action starts by clearing the status bar, so after one that
/// writes nothing there the status bar is empty.
pub proof fn law_quiet_actions_clear_status(old: AppState, a: Action, new: AppState)
    requires
        app_step(old, a, new),
        leaves_status_alone(a),
    ensures
        new.status_message is None,
{
}

/// Selecting a label shows the mailbox with the list focused, and asks
/// for that label's messages as the last request.
pub proof fn law_select_label_shows_mailbox(old: AppState, id: LabelId, new: AppState)
    requires
        app_step(old, Action::SelectLabel(id), new),
    ensures
        new.screen == Screen::Mailbox,
        new.mailbox.pane == ActivePane::MailList,
        new.mailbox.pending_active_label == Some(id),
        new.requests@.last() == AppRequest::FetchLabel(id),
{
}

/// While the first account is still to be set up, asking for the mailbox
/// shows the accounts screen instead.
pub proof fn law_onboarding_keeps_mailbox_closed(old: AppState, new: AppState)
    requires
        app_step(old, Action::OpenMailboxScreen, new),
        old.onboarding_required,
    ensures
        new.screen == Screen::Accounts,
{
}

/// The analytics actions that change the settings.
pub open spec fn is_analytics_setting_action(a: Action) -> bool {
    match a {
        Action::RefreshAnalytics | Action::CycleStorageMode | Action::CycleStorageGroupBy
        | Action::ToggleStalePerspective | Action::AdjustStaleOlderThanDays(_)
        | Action::AdjustStaleWithinDays(_) | Action::CycleContactsMode | Action::RefreshContacts
        | Action::ToggleResponseTimeDirection | Action::ToggleSubscriptionsRank
        | Action::CycleWrappedWindow | Action::StepWrappedYear(_) => true,
        _ => false,
    }
}

/// `x` held to `lo..=hi`.
pub open spec fn clamp_int(x: int, lo: int, hi: int) -> int {
    if x < lo {
        lo
    } else if x > hi {
        hi
    } else {
        x
    }
}

/// Whether stepping the summary's year by `delta` stays an `i32`, for
/// every year the clock can give.
pub open spec fn year_step_fits(w: WrappedWindow, delta: i32) -> bool {
    match w {
        WrappedWindow::Year(y) => i32::MIN <= y + delta <= i32::MAX,
        _ => i32::MIN <= MIN_YEAR + delta && MAX_YEAR + delta <= i32::MAX,
    }
}

/// The summary window after `CycleWrappedWindow` in the year `year`: the
/// year to date, this year, the last 90 days, the last 365 days, round.
pub open spec fn next_wrapped_window(w: WrappedWindow, year: i32) -> WrappedWindow {
    match w {
        WrappedWindow::Ytd => WrappedWindow::Year(year),
        WrappedWindow::Year(_) => WrappedWindow::SinceDays(90),
        WrappedWindow::SinceDays(d) => if d <= 90 {
            WrappedWindow::SinceDays(365)
        } else {
            WrappedWindow::Ytd
        },
    }
}

/// `new` is `old` with the analytics settings `st2`, back on the first
/// row when `reset`.
pub open spec fn analytics_changed(old: AppState, new: AppState, st2: AnalyticsState, reset: bool) -> bool {
    new == (AppState {
        analytics: st2,
        analytics_selected: if reset { 0 } else { old.analytics_selected },
        ..old
    })
}

/// What a settings action does to the analytics, in the calendar year
/// `year`. Changing a view's mode goes back to its first row; a change
/// that alters what is shown asks for the data again.
pub open spec fn analytics_step(old: AppState, a: Action, year: i32, new: AppState) -> bool {
    let st = old.analytics;
    match a {
        Action::RefreshAnalytics => new == (AppState {
            analytics: AnalyticsState { refresh_pending: true, ..st },
            analytics_error: None,
            ..old
        }),
        Action::CycleStorageMode => analytics_changed(
            old,
            new,
            AnalyticsState {
                storage_mode: if st.storage_mode == StorageMode::Breakdown {
                    StorageMode::LargestMessages
                } else {
                    StorageMode::Breakdown
                },
                refresh_pending: true,
                ..st
            },
            true,
        ),
        Action::CycleStorageGroupBy => analytics_changed(
            old,
            new,
            AnalyticsState {
                storage_group_by: match st.storage_group_by {
                    StorageGroupBy::Sender => StorageGroupBy::Mimetype,
                    StorageGroupBy::Mimetype => StorageGroupBy::Label,
                    StorageGroupBy::Label => StorageGroupBy::Sender,
                },
                refresh_pending: true,
                ..st
            },
            true,
        ),
        Action::ToggleStalePerspective => analytics_changed(
            old,
            new,
            AnalyticsState {
                stale_perspective: if st.stale_perspective == StaleBallInCourt::Mine {
                    StaleBallInCourt::Theirs
                } else {
                    StaleBallInCourt::Mine
                },
                refresh_pending: true,
                ..st
            },
            true,
        ),
        Action::AdjustStaleOlderThanDays(d) => analytics_changed(
            old,
            new,
            AnalyticsState {
                stale_older_than_days: clamp_int(st.stale_older_than_days + d, 1, 3650) as u32,
                refresh_pending: true,
                ..st
            },
            false,
        ),
        Action::AdjustStaleWithinDays(d) => analytics_changed(
            old,
            new,
            AnalyticsState {
                stale_within_days: clamp_int(st.stale_within_days + d, 1, 36500) as u32,
                refresh_pending: true,
                ..st
            },
            false,
        ),
        Action::CycleContactsMode => analytics_changed(
            old,
            new,
            AnalyticsState {
                contacts_mode: if st.contacts_mode == ContactsMode::Asymmetry {
                    ContactsMode::Decay
                } else {
                    ContactsMode::Asymmetry
                },
                refresh_pending: true,
                ..st
            },
            true,
        ),
        Action::RefreshContacts => requested(old, new, AppRequest::RefreshContacts) && new == (
        AppState { requests: new.requests, ..old }),
        Action::ToggleResponseTimeDirection => analytics_changed(
            old,
            new,
            AnalyticsState {
                response_time_direction: if st.response_time_direction
                    == ResponseTimeDirection::IReplied {
                    ResponseTimeDirection::TheyReplied
                } else {
                    ResponseTimeDirection::IReplied
                },
                refresh_pending: true,
                ..st
            },
            false,
        ),
        Action::ToggleSubscriptionsRank => analytics_changed(
            old,
            new,
            AnalyticsState { subscriptions_rank: !st.subscriptions_rank, ..st },
            false,
        ),
        Action::CycleWrappedWindow => analytics_changed(
            old,
            new,
            AnalyticsState {
                wrapped_window: next_wrapped_window(st.wrapped_window, year),
                refresh_pending: true,
                ..st
            },
            false,
        ),
        Action::StepWrappedYear(d) => analytics_changed(
            old,
            new,
            AnalyticsState {
                wrapped_window: WrappedWindow::Year(
                    ((match st.wrapped_window {
                        WrappedWindow::Year(y) => y,
                        _ => year,
                    }) + d) as i32,
                ),
                refresh_pending: true,
                ..st
            },
            false,
        ),
        _ => new == old,
    }
}

fn clamp_days(curr: u32, delta: i32, hi: i64) -> (r: u32)
    requires
        1 <= hi <= u32::MAX,
    ensures
        r == clamp_int(curr + delta, 1, hi as int),
{
    let next: i64 = curr as i64 + delta as i64;
    if next < 1 {
        1
    } else if next > hi {
        hi as u32
    } else {
        next as u32
    }
}

fn cycle_analytics_mode(app: &mut AppState, action: Action, year: i32)
    requires
        action is CycleStorageMode || action is CycleStorageGroupBy || action is ToggleStalePerspective
            || action is CycleContactsMode,
    ensures
        analytics_step(*old(app), action, year, *final(app)),
{
    match action {
        Action::CycleStorageMode => {
            app.analytics.storage_mode = match app.analytics.storage_mode {
                StorageMode::Breakdown => StorageMode::LargestMessages,
                StorageMode::LargestMessages => StorageMode::Breakdown,
            };
        },
        Action::CycleStorageGroupBy => {
            app.analytics.storage_group_by = match app.analytics.storage_group_by {
                StorageGroupBy::Sender => StorageGroupBy::Mimetype,
                StorageGroupBy::Mimetype => StorageGroupBy::Label,
                StorageGroupBy::Label => StorageGroupBy::Sender,
            };
        },
        Action::ToggleStalePerspective => {
            app.analytics.stale_perspective = match app.analytics.stale_perspective {
                StaleBallInCourt::Mine => StaleBallInCourt::Theirs,
                StaleBallInCourt::Theirs => StaleBallInCourt::Mine,
            };
        },
        _ => {
            app.analytics.contacts_mode = match app.analytics.contacts_mode {
                ContactsMode::Asymmetry => ContactsMode::Decay,
                ContactsMode::Decay => ContactsMode::Asymmetry,
            };
        },
    }
    app.analytics_selected = 0;
    app.analytics.refresh_pending = true;
}

fn step_wrapped_window(app: &mut AppState, action: Action, year: i32)
    requires
        action is CycleWrappedWindow || action is StepWrappedYear,
        MIN_YEAR <= year <= MAX_YEAR,
        action matches Action::StepWrappedYear(d) ==> year_step_fits(old(app).analytics.wrapped_window, d),
    ensures
        analytics_step(*old(app), action, year, *final(app)),
{
    match action {
        Action::CycleWrappedWindow => {
            app.analytics.wrapped_window = match app.analytics.wrapped_window {
                WrappedWindow::Ytd => WrappedWindow::Year(year),
                WrappedWindow::Year(_) => WrappedWindow::SinceDays(90),
                WrappedWindow::SinceDays(d) => if d <= 90 {
                    WrappedWindow::SinceDays(365)
                } else {
                    WrappedWindow::Ytd
                },
            };
        },
        Action::StepWrappedYear(d) => {
            let curr = match app.analytics.wrapped_window {
                WrappedWindow::Year(y) => y,
                _ => year,
            };
            app.analytics.wrapped_window = WrappedWindow::Year(curr + d);
        },
        _ => {},
    }
    app.analytics.refresh_pending = true;
}

fn adjust_analytics(app: &mut AppState, action: Action, year: i32)
    requires
        action is RefreshAnalytics || action is AdjustStaleOlderThanDays || action is AdjustStaleWithinDays
            || action is RefreshContacts || action is ToggleResponseTimeDirection
            || action is ToggleSubscriptionsRank,
    ensures
        analytics_step(*old(app), action, year, *final(app)),
{
    match action {
        Action::RefreshAnalytics => {
            app.analytics_error = None;
            app.analytics.refresh_pending = true;
        },
        Action::AdjustStaleOlderThanDays(d) => {
            app.analytics.stale_older_than_days = clamp_days(app.analytics.stale_older_than_days, d, 3650);
            app.analytics.refresh_pending = true;
        },
        Action::AdjustStaleWithinDays(d) => {
            app.analytics.stale_within_days = clamp_days(app.analytics.stale_within_days, d, 36500);
            app.analytics.refresh_pending = true;
        },
        Action::RefreshContacts => {
            app.requests.push(AppRequest::RefreshContacts);
        },
        Action::ToggleResponseTimeDirection => {
            app.analytics.response_time_direction = match app.analytics.response_time_direction {
                ResponseTimeDirection::IReplied => ResponseTimeDirection::TheyReplied,
                ResponseTimeDirection::TheyReplied => ResponseTimeDirection::IReplied,
            };
            app.analytics.refresh_pending = true;
        },
        _ => {
            app.analytics.subscriptions_rank = !app.analytics.subscriptions_rank;
        },
    }
}

/// Applies an analytics settings action in the calendar year `year`.
pub fn apply_analytics_setting_in_year(app: &mut AppState, action: Action, year: i32)
    requires
        is_analytics_setting_action(action),
        MIN_YEAR <= year <= MAX_YEAR,
        action matches Action::StepWrappedYear(d) ==> year_step_fits(old(app).analytics.wrapped_window, d),
    ensures
        analytics_step(*old(app), action, year, *final(app)),
{
    if matches!(action, Action::CycleStorageMode | Action::CycleStorageGroupBy
        | Action::ToggleStalePerspective | Action::CycleContactsMode) {
        cycle_analytics_mode(app, action, year);
    } else if matches!(action, Action::CycleWrappedWindow | Action::StepWrappedYear(_)) {
        step_wrapped_window(app, action, year);
    } else {
        adjust_analytics(app, action, year);
    }
}

/// Applies an analytics settings action in the current calendar year
/// (the clock's, in UTC).
pub fn apply_analytics_setting(app: &mut AppState, action: Action)
    requires
        is_analytics_setting_action(action),
        action matches Action::StepWrappedYear(d) ==> year_step_fits(old(app).analytics.wrapped_window, d),
    ensures
        exists|now: int|
            crate::clock::clock_reading(now) && is_year_of(year_of(now), now) && analytics_step(
                *old(app),
                action,
                year_of(now) as i32,
                *final(app),
            ),
{
    let (now, year) = utc_now();
    apply_analytics_setting_in_year(app, action, year);
    assert(is_year_of(year_of(now as int), now as int));
}

/// The actions that open the analytics screen or move between its views.
pub open spec fn is_analytics_view_action(a: Action) -> bool {
    a is OpenAnalyticsScreen || a is OpenAnalyticsView || a is NextAnalyticsView
        || a is PrevAnalyticsView
}

/// `new` is `old` on the analytics screen showing `view`, the data asked
/// for again unless what is loaded for `view` is still fresh; `fresh_start`
/// also goes back to the first row and drops the error.
pub open spec fn analytics_view_shown(old: AppState, view: AnalyticsView, fresh_start: bool, screen: Screen, new: AppState) -> bool {
    new == (AppState {
        screen,
        mailbox: MailboxState { pending_preview_read: if screen == Screen::Analytics { false } else { old.mailbox.pending_preview_read }, ..old.mailbox },
        analytics: AnalyticsState {
            view,
            refresh_pending: old.analytics.refresh_pending || !old.analytics_fresh_views@.contains(view),
            ..old.analytics
        },
        analytics_selected: if fresh_start { 0 } else { old.analytics_selected },
        analytics_error: if fresh_start { None } else { old.analytics_error },
        ..old
    })
}

/// What opening the analytics screen or moving between its views does.
/// Opening the screen drops the message waiting to be marked read.
pub open spec fn analytics_view_step(old: AppState, a: Action, new: AppState) -> bool {
    match a {
        Action::OpenAnalyticsScreen => analytics_view_shown(old, old.analytics.view, false, Screen::Analytics, new),
        Action::OpenAnalyticsView(v) => analytics_view_shown(old, v, true, Screen::Analytics, new),
        Action::NextAnalyticsView => analytics_view_shown(
            old,
            crate::analytics::view_at(crate::analytics::view_index(old.analytics.view) + 1),
            true,
            old.screen,
            new,
        ),
        Action::PrevAnalyticsView => analytics_view_shown(
            old,
            crate::analytics::view_at(crate::analytics::view_index(old.analytics.view) + 6),
            true,
            old.screen,
            new,
        ),
        _ => new == old,
    }
}

fn view_is_fresh(views: &Vec<AnalyticsView>, v: AnalyticsView) -> (b: bool)
    ensures
        b == views@.contains(v),
{
    let mut i: usize = 0;
    while i < views.len()
        invariant
            i <= views@.len(),
            forall|j: int| 0 <= j < i ==> views@[j] != v,
        decreases views.len() - i,
    {
        if views[i] == v {
            return true;
        }
        i = i + 1;
    }
    false
}

#[verifier::rlimit(100)]
#[verifier::spinoff_prover]
fn show_analytics_view(app: &mut AppState, view: AnalyticsView, fresh_start: bool, screen: Screen)
    ensures
        analytics_view_shown(*old(app), view, fresh_start, screen, *final(app)),
{
    let fresh = view_is_fresh(&app.analytics_fresh_views, view);
    let preview = screen != Screen::Analytics && app.mailbox.pending_preview_read;
    let refresh = app.analytics.refresh_pending || !fresh;
    app.mailbox.pending_preview_read = preview;
    app.screen = screen;
    app.analytics.view = view;
    app.analytics.refresh_pending = refresh;
    if fresh_start {
        app.analytics_selected = 0;
        app.analytics_error = None;
    }
}

/// Opens the analytics screen or moves between its views.
pub fn apply_analytics_view_action(app: &mut AppState, action: Action)
    requires
        is_analytics_view_action(action),
    ensures
        analytics_view_step(*old(app), action, *final(app)),
{
    match action {
        Action::OpenAnalyticsScreen => {
            let v = app.analytics.view;
            show_analytics_view(app, v, false, Screen::Analytics);
        },
        Action::OpenAnalyticsView(v) => show_analytics_view(app, v, true, Screen::Analytics),
        Action::NextAnalyticsView => {
            let v = crate::analytics::next_analytics_view(app.analytics.view);
            let screen = app.screen;
            show_analytics_view(app, v, true, screen);
        },
        _ => {
            let v = crate::analytics::prev_analytics_view(app.analytics.view);
            let screen = app.screen;
            show_analytics_view(app, v, true, screen);
        },
    }
}

} // verus!
