//! Actions the key bindings produce, the contexts of the user interface,
//! and which actions each context accepts.
use vstd::prelude::*;

verus! {

/// Identifier of a mailbox label.
pub type LabelId = u128;

/// The analytics views, in the order the view cycle visits them.
#[derive(Debug, Clone, Copy, PartialEq, Eq, Structural)]
pub enum AnalyticsView {
    Storage,
    StaleThreads,
    Contacts,
    CadenceDrift,
    ResponseTime,
    Subscriptions,
    Wrapped,
}

/// Patterns for selecting many messages at once.
#[derive(Debug, Clone, Copy, PartialEq, Eq, Structural)]
pub enum PatternKind {
    All,
    /// Deselect everything.
    Nothing,
    Read,
    Unread,
    Starred,
    Thread,
}

/// Everything a key binding, the command palette or a mouse gesture can
/// ask the application to do. Saved searches carry their name and the
/// name of their search mode; semantic profiles are carried by name.
#[derive(Debug, Clone, PartialEq, Eq)]
pub enum Action {
    // Navigation (vim-native)
    MoveDown,
    MoveUp,
    JumpTop,
    JumpBottom,
    PageDown,
    PageUp,
    ViewportTop,
    ViewportMiddle,
    ViewportBottom,
    CenterCurrent,
    SwitchPane,
    OpenSelected,
    Back,
    QuitView,
    ClearSelection,
    OpenMailboxScreen,
    OpenSearchScreen,
    OpenRulesScreen,
    OpenDiagnosticsScreen,
    OpenAccountsScreen,
    OpenAnalyticsScreen,
    OpenAnalyticsView(AnalyticsView),
    NextAnalyticsView,
    PrevAnalyticsView,
    RefreshAnalytics,
    // Analytics filter cycles
    CycleStorageMode,
    CycleStorageGroupBy,
    ToggleStalePerspective,
    AdjustStaleOlderThanDays(i32),
    AdjustStaleWithinDays(i32),
    CycleContactsMode,
    RefreshContacts,
    ToggleResponseTimeDirection,
    ToggleSubscriptionsRank,
    CycleWrappedWindow,
    StepWrappedYear(i32),
    // Analytics drill-down + actionable rows
    AnalyticsRowDrillDown,
    AnalyticsUnsubscribe,
    // Analytics filter modal
    OpenAnalyticsFilterModal,
    CloseAnalyticsFilterModal,
    SubmitAnalyticsFilterModal,
    OpenTab1,
    OpenTab2,
    OpenTab3,
    OpenTab4,
    OpenTab5,
    OpenTab6,
    // Search
    OpenGlobalSearch,
    OpenMailboxFilter,
    SubmitSearch,
    CloseSearch,
    CycleSearchMode,
    NextSearchResult,
    PrevSearchResult,
    // Gmail go-to navigation
    GoToInbox,
    GoToStarred,
    GoToSent,
    GoToDrafts,
    GoToAllMail,
    OpenSubscriptions,
    OpenOwedReplies,
    GoToLabel,
    // Command palette
    OpenCommandPalette,
    CloseCommandPalette,
    // Sync
    SyncNow,
    // Message view
    OpenMessageView,
    CloseMessageView,
    ToggleMailListMode,
    // Label / saved search selection
    SelectLabel(LabelId),
    SelectSavedSearch(String, String),
    /// Jump to the Nth saved search (1-indexed) for keyboard-driven
    /// power users. `0` clears any active saved-search filter and
    /// returns to the default inbox view. Out-of-range indices are
    /// no-ops.
    OpenSavedSearchByIndex(usize),
    /// Mark the current message for reply-later. Local-only intent —
    /// never roundtrips to the provider. Cleared via the queue view or
    /// when the user replies.
    FlagReplyLater,
    /// Open the reply-later queue (a saved search for `is:reply-later`
    /// once the Tantivy operator lands; today opens via CLI).
    OpenReplyQueue,
    /// Close the reply-later queue modal (Esc).
    CloseReplyQueueModal,
    /// Move cursor to the next message in the reply queue.
    ReplyQueueModalNext,
    /// Move cursor to the previous message in the reply queue.
    ReplyQueueModalPrev,
    /// Start the normal reply compose flow for the selected queued message.
    ReplyQueueModalReply,
    /// Open the screener queue — senders waiting for a classification.
    OpenScreenerQueue,
    /// Close the screener triage modal (Esc).
    CloseScreenerModal,
    /// Move cursor to the next entry in the screener queue.
    ScreenerModalNext,
    /// Move cursor to the previous entry in the screener queue.
    ScreenerModalPrev,
    /// Set the focused sender's disposition to allow.
    ScreenerDisposeAllow,
    /// Set the focused sender's disposition to deny.
    ScreenerDisposeDeny,
    /// Set the focused sender's disposition to feed.
    ScreenerDisposeFeed,
    /// Set the focused sender's disposition to paper-trail.
    ScreenerDisposePaperTrail,
    /// Show the sender-view full-screen page for the currently focused
    /// message's `from` address.
    OpenSenderView,
    /// Close the sender-view modal (Esc).
    CloseSenderViewModal,
    /// Move cursor to the next recent sender message.
    SenderProfileNextMessage,
    /// Move cursor to the previous recent sender message.
    SenderProfilePrevMessage,
    /// Open the selected recent sender message.
    OpenSenderProfileMessage,
    /// Summarize the current thread via the configured LLM.
    SummarizeCurrentThread,
    /// Close the thread-summary modal (Esc).
    CloseSummaryModal,
    /// Open the briefing modal for the focused
    /// thread. Fires `Request::GetThreadBriefing`.
    OpenThreadBriefing,
    /// Open the briefing modal for the focused
    /// recipient. Fires `Request::GetRecipientBriefing`.
    OpenRecipientBriefing,
    /// Close the briefing modal (Esc).
    CloseBriefingModal,
    /// Open the snippet manager modal.
    OpenSnippets,
    /// Close the snippet manager modal (Esc).
    CloseSnippetsModal,
    /// Move cursor to the next snippet in the modal list.
    SnippetsModalNext,
    /// Move cursor to the previous snippet in the modal list.
    SnippetsModalPrev,
    ClearFilter,
    RefreshRules,
    ToggleRuleEnabled,
    DeleteRule,
    ShowRuleHistory,
    ShowRuleDryRun,
    OpenRuleFormNew,
    OpenRuleFormEdit,
    SaveRuleForm,
    OpenSavedSearchFormNew,
    OpenSavedSearchFormEdit,
    SaveSavedSearchForm,
    DeleteSavedSearch,
    EnableSemantic,
    DisableSemantic,
    ReindexSemantic,
    BackfillSemantic,
    InstallSemanticProfile(String),
    UseSemanticProfile(String),
    DraftAssistCurrentThread,
    DraftNewForSender,
    RefinePendingDraft,
    OpenVoiceProfile,
    RebuildUserVoice,
    OpenCommitments,
    RefreshDiagnostics,
    RefreshAccounts,
    OpenAccountFormNew,
    SaveAccountForm,
    TestAccountForm,
    ReauthorizeAccountForm,
    RepairAccount,
    SetDefaultAccount,
    GenerateBugReport,
    EditConfig,
    OpenLogs,
    ShowOnboarding,
    OpenDiagnosticsPaneDetails,

    // --- Phase 2: Email actions ---
    Compose,
    Reply,
    ReplyAll,
    Forward,
    Archive,
    MarkReadAndArchive,
    Trash,
    Spam,
    Star,
    MarkRead,
    MarkUnread,
    /// Reverse the most recent destructive mutation if its undo window
    /// is still open. Bound to `u` in the mailbox; falls through to a
    /// status-bar warning when there's nothing to undo.
    UndoLastMutation,
    ApplyLabel,
    MoveToLabel,
    Unsubscribe,
    ConfirmUnsubscribeOnly,
    ConfirmUnsubscribeAndArchiveSender,
    CancelUnsubscribe,
    Snooze,
    OpenInBrowser,

    // --- Phase 2: Reader mode ---
    ToggleReaderMode,
    ToggleHtmlView,
    ToggleRemoteContent,
    ToggleSignature,

    // --- Phase 2: Batch operations ---
    ToggleSelect,
    VisualLineMode,
    PatternSelect(PatternKind),

    // --- Phase 2: Attachments ---
    AttachmentList,

    // --- Phase 2: Links ---
    OpenLinks,

    // --- Phase 2: Layout ---
    ToggleFullscreen,

    // --- Phase 2: Export ---
    ExportThread,

    // --- Account switching ---
    SwitchAccount(String),

    // Help
    Help,

    // No-op (for unrecognized keys)
    Noop,

    /// Cancel an in-flight Outlook device-code auth session.
    CancelOutlookAuth,
}

/// The six top-level screens as the key routing sees them.
#[derive(Debug, Clone, Copy, PartialEq, Eq, Structural)]
pub enum ScreenContext {
    Mailbox,
    Search,
    Rules,
    Diagnostics,
    Accounts,
    Analytics,
}

/// Where the keyboard focus is: a screen together with the pane or form
/// within it.
#[derive(Debug, Clone, Copy, PartialEq, Eq, Structural)]
pub enum UiContext {
    MailboxSidebar,
    MailboxList,
    MailboxMessage,
    SearchEditor,
    SearchResults,
    SearchPreview,
    RulesList,
    RulesForm,
    Diagnostics,
    AccountsList,
    AccountsForm,
    Analytics,
}

pub open spec fn context_screen(c: UiContext) -> ScreenContext {
    match c {
        UiContext::MailboxSidebar | UiContext::MailboxList | UiContext::MailboxMessage => ScreenContext::Mailbox,
        UiContext::SearchEditor | UiContext::SearchResults | UiContext::SearchPreview => ScreenContext::Search,
        UiContext::RulesList | UiContext::RulesForm => ScreenContext::Rules,
        UiContext::Diagnostics => ScreenContext::Diagnostics,
        UiContext::AccountsList | UiContext::AccountsForm => ScreenContext::Accounts,
        UiContext::Analytics => ScreenContext::Analytics,
    }
}

pub open spec fn context_label(c: UiContext) -> Seq<char> {
    match c {
        UiContext::MailboxSidebar => "Mailbox / Sidebar"@,
        UiContext::MailboxList => "Mailbox / List"@,
        UiContext::MailboxMessage => "Mailbox / Message"@,
        UiContext::SearchEditor => "Search / Query"@,
        UiContext::SearchResults => "Search / Results"@,
        UiContext::SearchPreview => "Search / Preview"@,
        UiContext::RulesList => "Rules"@,
        UiContext::RulesForm => "Rules / Form"@,
        UiContext::Diagnostics => "Diagnostics"@,
        UiContext::AccountsList => "Accounts"@,
        UiContext::AccountsForm => "Accounts / Form"@,
        UiContext::Analytics => "Analytics"@,
    }
}

impl UiContext {
    /// The screen this context belongs to.
    pub fn screen(self) -> (s: ScreenContext)
        ensures
            s == context_screen(self),
    {
        match self {
            Self::MailboxSidebar | Self::MailboxList | Self::MailboxMessage => {
                ScreenContext::Mailbox
            },
            Self::SearchEditor | Self::SearchResults | Self::SearchPreview => ScreenContext::Search,
            Self::RulesList | Self::RulesForm => ScreenContext::Rules,
            Self::Diagnostics => ScreenContext::Diagnostics,
            Self::AccountsList | Self::AccountsForm => ScreenContext::Accounts,
            Self::Analytics => ScreenContext::Analytics,
        }
    }

    /// The name shown for this context in the help overlay.
    pub fn label(self) -> (l: &'static str)
        ensures
            l@ == context_label(self),
    {
        match self {
            Self::MailboxSidebar => "Mailbox / Sidebar",
            Self::MailboxList => "Mailbox / List",
            Self::MailboxMessage => "Mailbox / Message",
            Self::SearchEditor => "Search / Query",
            Self::SearchResults => "Search / Results",
            Self::SearchPreview => "Search / Preview",
            Self::RulesList => "Rules",
            Self::RulesForm => "Rules / Form",
            Self::Diagnostics => "Diagnostics",
            Self::AccountsList => "Accounts",
            Self::AccountsForm => "Accounts / Form",
            Self::Analytics => "Analytics",
        }
    }
}

// ---------------------------------------------------------------------
// Families of actions
// ---------------------------------------------------------------------

/// Switching screens or tabs and opening or closing the command palette.
pub open spec fn is_screen_navigation(a: Action) -> bool {
    matches!(a,
        Action::OpenCommandPalette | Action::CloseCommandPalette | Action::OpenMailboxScreen
        | Action::OpenSearchScreen | Action::OpenRulesScreen | Action::OpenDiagnosticsScreen
        | Action::OpenAccountsScreen | Action::OpenAnalyticsScreen | Action::OpenTab1
        | Action::OpenTab2 | Action::OpenTab3 | Action::OpenTab4 | Action::OpenTab5
        | Action::OpenTab6)
}

/// Application-wide commands: sync, configuration, logs, onboarding,
/// help and leaving the view.
pub open spec fn is_app_command(a: Action) -> bool {
    matches!(a,
        Action::SyncNow | Action::EditConfig | Action::OpenLogs | Action::ShowOnboarding
        | Action::Help | Action::QuitView)
}

/// The voice profile and commitments panels.
pub open spec fn is_voice_command(a: Action) -> bool {
    matches!(a, Action::OpenVoiceProfile | Action::RebuildUserVoice | Action::OpenCommitments)
}

/// Managing the semantic search index.
pub open spec fn is_semantic_command(a: Action) -> bool {
    matches!(a,
        Action::EnableSemantic | Action::DisableSemantic | Action::ReindexSemantic
        | Action::BackfillSemantic | Action::InstallSemanticProfile(_)
        | Action::UseSemanticProfile(_))
}

/// Actions of the analytics screen.
pub open spec fn is_analytics_command(a: Action) -> bool {
    matches!(a,
        Action::OpenAnalyticsView(_) | Action::NextAnalyticsView | Action::PrevAnalyticsView
        | Action::RefreshAnalytics | Action::CycleStorageMode | Action::CycleStorageGroupBy
        | Action::ToggleStalePerspective | Action::AdjustStaleOlderThanDays(_)
        | Action::AdjustStaleWithinDays(_) | Action::CycleContactsMode
        | Action::RefreshContacts | Action::ToggleResponseTimeDirection
        | Action::ToggleSubscriptionsRank | Action::CycleWrappedWindow
        | Action::StepWrappedYear(_) | Action::AnalyticsRowDrillDown
        | Action::AnalyticsUnsubscribe | Action::OpenAnalyticsFilterModal
        | Action::CloseAnalyticsFilterModal | Action::SubmitAnalyticsFilterModal)
}

/// Moving through a list one row or to either end.
pub open spec fn is_list_movement(a: Action) -> bool {
    matches!(a, Action::MoveDown | Action::MoveUp | Action::JumpTop | Action::JumpBottom)
}

/// Editing and running a search query.
pub open spec fn is_search_query_command(a: Action) -> bool {
    matches!(a,
        Action::OpenGlobalSearch | Action::SubmitSearch | Action::CloseSearch
        | Action::CycleSearchMode)
}

/// Managing mail rules.
pub open spec fn is_rule_command(a: Action) -> bool {
    matches!(a,
        Action::RefreshRules | Action::ToggleRuleEnabled | Action::DeleteRule
        | Action::ShowRuleHistory | Action::ShowRuleDryRun | Action::OpenRuleFormNew
        | Action::OpenRuleFormEdit | Action::SaveRuleForm)
}

/// The diagnostics screen's own commands.
pub open spec fn is_diagnostics_command(a: Action) -> bool {
    matches!(a,
        Action::RefreshDiagnostics | Action::GenerateBugReport
        | Action::OpenDiagnosticsPaneDetails)
}

/// Managing accounts.
pub open spec fn is_account_command(a: Action) -> bool {
    matches!(a,
        Action::RefreshAccounts | Action::OpenAccountFormNew | Action::SaveAccountForm
        | Action::TestAccountForm | Action::ReauthorizeAccountForm | Action::RepairAccount
        | Action::SetDefaultAccount)
}

/// Accepted everywhere outside the mailbox.
pub open spec fn is_global_command(a: Action) -> bool {
    is_screen_navigation(a) || is_app_command(a) || is_voice_command(a)
}

/// Which actions each context accepts. The mailbox accepts everything;
/// the search results accept everything but the rules, diagnostics and
/// account commands; every other context accepts the global commands
/// and its own family.
pub open spec fn allowed(a: Action, c: UiContext) -> bool {
    match c {
        UiContext::MailboxSidebar | UiContext::MailboxList | UiContext::MailboxMessage => true,
        UiContext::Analytics => is_global_command(a) || is_analytics_command(a)
            || is_list_movement(a),
        UiContext::SearchEditor => is_global_command(a) || is_search_query_command(a)
            || is_semantic_command(a),
        UiContext::SearchResults | UiContext::SearchPreview => !(is_rule_command(a)
            || is_diagnostics_command(a) || is_account_command(a)),
        UiContext::RulesList | UiContext::RulesForm => is_global_command(a) || is_rule_command(a)
            || is_semantic_command(a),
        UiContext::Diagnostics => is_global_command(a) || is_diagnostics_command(a)
            || is_semantic_command(a),
        UiContext::AccountsList | UiContext::AccountsForm => is_global_command(a)
            || is_account_command(a) || is_semantic_command(a),
    }
}

/// Whether `action` may run while the focus is in `context`.
pub fn action_allowed_in_context(action: &Action, context: UiContext) -> (r: bool)
    ensures
        r == allowed(*action, context),
{
    match context {
        UiContext::MailboxSidebar | UiContext::MailboxList | UiContext::MailboxMessage => true,
        UiContext::Analytics => matches!(
            action,
            Action::OpenCommandPalette
                | Action::CloseCommandPalette
                | Action::OpenMailboxScreen
                | Action::OpenSearchScreen
                | Action::OpenRulesScreen
                | Action::OpenDiagnosticsScreen
                | Action::OpenAccountsScreen
                | Action::OpenAnalyticsScreen
                | Action::OpenAnalyticsView(_)
                | Action::NextAnalyticsView
                | Action::PrevAnalyticsView
                | Action::RefreshAnalytics
                | Action::CycleStorageMode
                | Action::CycleStorageGroupBy
                | Action::ToggleStalePerspective
                | Action::AdjustStaleOlderThanDays(_)
                | Action::AdjustStaleWithinDays(_)
                | Action::CycleContactsMode
                | Action::RefreshContacts
                | Action::ToggleResponseTimeDirection
                | Action::ToggleSubscriptionsRank
                | Action::CycleWrappedWindow
                | Action::StepWrappedYear(_)
                | Action::AnalyticsRowDrillDown
                | Action::AnalyticsUnsubscribe
                | Action::OpenAnalyticsFilterModal
                | Action::CloseAnalyticsFilterModal
                | Action::SubmitAnalyticsFilterModal
                | Action::OpenTab1
                | Action::OpenTab2
                | Action::OpenTab3
                | Action::OpenTab4
                | Action::OpenTab5
                | Action::OpenTab6
                | Action::SyncNow
                | Action::EditConfig
                | Action::OpenLogs
                | Action::ShowOnboarding
                | Action::OpenVoiceProfile
                | Action::RebuildUserVoice
                | Action::OpenCommitments
                | Action::Help
                | Action::QuitView
                | Action::MoveDown
                | Action::MoveUp
                | Action::JumpTop
                | Action::JumpBottom
        ),
        UiContext::SearchEditor => matches!(
            action,
            Action::OpenGlobalSearch
                | Action::SubmitSearch
                | Action::CloseSearch
                | Action::CycleSearchMode
                | Action::OpenCommandPalette
                | Action::CloseCommandPalette
                | Action::OpenMailboxScreen
                | Action::OpenSearchScreen
                | Action::OpenRulesScreen
                | Action::OpenDiagnosticsScreen
                | Action::OpenAccountsScreen
                | Action::OpenAnalyticsScreen
                | Action::OpenTab1
                | Action::OpenTab2
                | Action::OpenTab3
                | Action::OpenTab4
                | Action::OpenTab5
                | Action::OpenTab6
                | Action::SyncNow
                | Action::EditConfig
                | Action::OpenLogs
                | Action::ShowOnboarding
                | Action::Help
                | Action::QuitView
                | Action::EnableSemantic
                | Action::DisableSemantic
                | Action::ReindexSemantic
                | Action::BackfillSemantic
                | Action::InstallSemanticProfile(_)
                | Action::UseSemanticProfile(_)
                | Action::OpenVoiceProfile
                | Action::RebuildUserVoice
                | Action::OpenCommitments
        ),
        UiContext::SearchResults | UiContext::SearchPreview => !matches!(
            action,
            Action::RefreshRules
                | Action::ToggleRuleEnabled
                | Action::DeleteRule
                | Action::ShowRuleHistory
                | Action::ShowRuleDryRun
                | Action::OpenRuleFormNew
                | Action::OpenRuleFormEdit
                | Action::SaveRuleForm
                | Action::RefreshDiagnostics
                | Action::GenerateBugReport
                | Action::OpenDiagnosticsPaneDetails
                | Action::RefreshAccounts
                | Action::OpenAccountFormNew
                | Action::SaveAccountForm
                | Action::TestAccountForm
                | Action::ReauthorizeAccountForm
                | Action::RepairAccount
                | Action::SetDefaultAccount
        ),
        UiContext::RulesList | UiContext::RulesForm => matches!(
            action,
            Action::OpenCommandPalette
                | Action::CloseCommandPalette
                | Action::OpenMailboxScreen
                | Action::OpenSearchScreen
                | Action::OpenRulesScreen
                | Action::OpenDiagnosticsScreen
                | Action::OpenAccountsScreen
                | Action::OpenAnalyticsScreen
                | Action::OpenTab1
                | Action::OpenTab2
                | Action::OpenTab3
                | Action::OpenTab4
                | Action::OpenTab5
                | Action::OpenTab6
                | Action::RefreshRules
                | Action::ToggleRuleEnabled
                | Action::DeleteRule
                | Action::ShowRuleHistory
                | Action::ShowRuleDryRun
                | Action::OpenRuleFormNew
                | Action::OpenRuleFormEdit
                | Action::SaveRuleForm
                | Action::SyncNow
                | Action::EditConfig
                | Action::OpenLogs
                | Action::ShowOnboarding
                | Action::Help
                | Action::QuitView
                | Action::EnableSemantic
                | Action::DisableSemantic
                | Action::ReindexSemantic
                | Action::BackfillSemantic
                | Action::InstallSemanticProfile(_)
                | Action::UseSemanticProfile(_)
                | Action::OpenVoiceProfile
                | Action::RebuildUserVoice
                | Action::OpenCommitments
        ),
        UiContext::Diagnostics => matches!(
            action,
            Action::OpenCommandPalette
                | Action::CloseCommandPalette
                | Action::OpenMailboxScreen
                | Action::OpenSearchScreen
                | Action::OpenRulesScreen
                | Action::OpenDiagnosticsScreen
                | Action::OpenAccountsScreen
                | Action::OpenAnalyticsScreen
                | Action::OpenTab1
                | Action::OpenTab2
                | Action::OpenTab3
                | Action::OpenTab4
                | Action::OpenTab5
                | Action::OpenTab6
                | Action::EnableSemantic
                | Action::DisableSemantic
                | Action::ReindexSemantic
                | Action::BackfillSemantic
                | Action::InstallSemanticProfile(_)
                | Action::UseSemanticProfile(_)
                | Action::OpenVoiceProfile
                | Action::RebuildUserVoice
                | Action::OpenCommitments
                | Action::RefreshDiagnostics
                | Action::GenerateBugReport
                | Action::OpenDiagnosticsPaneDetails
                | Action::SyncNow
                | Action::EditConfig
                | Action::OpenLogs
                | Action::ShowOnboarding
                | Action::Help
                | Action::QuitView
        ),
        UiContext::AccountsList | UiContext::AccountsForm => matches!(
            action,
            Action::OpenCommandPalette
                | Action::CloseCommandPalette
                | Action::OpenMailboxScreen
                | Action::OpenSearchScreen
                | Action::OpenRulesScreen
                | Action::OpenDiagnosticsScreen
                | Action::OpenAccountsScreen
                | Action::OpenAnalyticsScreen
                | Action::OpenTab1
                | Action::OpenTab2
                | Action::OpenTab3
                | Action::OpenTab4
                | Action::OpenTab5
                | Action::OpenTab6
                | Action::RefreshAccounts
                | Action::OpenAccountFormNew
                | Action::SaveAccountForm
                | Action::TestAccountForm
                | Action::ReauthorizeAccountForm
                | Action::RepairAccount
                | Action::SetDefaultAccount
                | Action::EnableSemantic
                | Action::DisableSemantic
                | Action::ReindexSemantic
                | Action::BackfillSemantic
                | Action::InstallSemanticProfile(_)
                | Action::UseSemanticProfile(_)
                | Action::OpenVoiceProfile
                | Action::RebuildUserVoice
                | Action::OpenCommitments
                | Action::SyncNow
                | Action::EditConfig
                | Action::OpenLogs
                | Action::ShowOnboarding
                | Action::Help
                | Action::QuitView
        ),
    }
}


// ---------------------------------------------------------------------
// Laws
// ---------------------------------------------------------------------

/// Every action is accepted while the focus is anywhere in the mailbox.
pub proof fn law_mailbox_accepts_everything(a: Action, c: UiContext)
    requires
        context_screen(c) == ScreenContext::Mailbox,
    ensures
        allowed(a, c),
{
}

/// Screen switching, the command palette, sync, configuration, logs,
/// onboarding, help, quitting the view and the voice panels are
/// accepted in every context.
pub proof fn law_global_commands_accepted_everywhere(a: Action, c: UiContext)
    requires
        is_global_command(a),
    ensures
        allowed(a, c),
{
}

/// Rule commands are accepted exactly on the mailbox and rules screens.
pub proof fn law_rule_commands_only_on_rules(a: Action, c: UiContext)
    requires
        is_rule_command(a),
    ensures
        allowed(a, c) <==> (context_screen(c) == ScreenContext::Mailbox || context_screen(c)
            == ScreenContext::Rules),
{
}

/// Account commands are accepted exactly on the mailbox and accounts
/// screens.
pub proof fn law_account_commands_only_on_accounts(a: Action, c: UiContext)
    requires
        is_account_command(a),
    ensures
        allowed(a, c) <==> (context_screen(c) == ScreenContext::Mailbox || context_screen(c)
            == ScreenContext::Accounts),
{
}

/// Diagnostics commands are accepted exactly on the mailbox and
/// diagnostics screens.
pub proof fn law_diagnostics_commands_only_on_diagnostics(a: Action, c: UiContext)
    requires
        is_diagnostics_command(a),
    ensures
        allowed(a, c) <==> (context_screen(c) == ScreenContext::Mailbox || context_screen(c)
            == ScreenContext::Diagnostics),
{
}

/// Analytics commands are refused in the search editor and on the rules,
/// diagnostics and accounts screens.
pub proof fn law_analytics_commands_refused_elsewhere(a: Action, c: UiContext)
    requires
        is_analytics_command(a),
        c == UiContext::SearchEditor || context_screen(c) == ScreenContext::Rules
            || context_screen(c) == ScreenContext::Diagnostics || context_screen(c)
            == ScreenContext::Accounts,
    ensures
        !allowed(a, c),
{
}

/// No two contexts share a label.
pub proof fn law_context_labels_distinct(c1: UiContext, c2: UiContext)
    requires
        context_label(c1) == context_label(c2),
    ensures
        c1 == c2,
{
    reveal_strlit("Mailbox / Sidebar");
    reveal_strlit("Mailbox / List");
    reveal_strlit("Mailbox / Message");
    reveal_strlit("Search / Query");
    reveal_strlit("Search / Results");
    reveal_strlit("Search / Preview");
    reveal_strlit("Rules");
    reveal_strlit("Rules / Form");
    reveal_strlit("Diagnostics");
    reveal_strlit("Accounts");
    reveal_strlit("Accounts / Form");
    reveal_strlit("Analytics");
    if c1 != c2 {
        assert(context_label(c1).len() != context_label(c2).len() || exists|i: int|
            0 <= i < context_label(c1).len() && context_label(c1)[i] != context_label(c2)[i]) by {
            let l1 = context_label(c1);
            let l2 = context_label(c2);
            if l1.len() == l2.len() {
                let k: int = if l1[0] != l2[0] { 0 } else if l1[1] != l2[1] { 1 } else if l1[2]
                    != l2[2] { 2 } else if l1[9] != l2[9] { 9 } else { 10 };
                assert(l1[k] != l2[k]);
            }
        }
    }
}

} // verus!
