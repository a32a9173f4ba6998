use mxr_tui::account_form::{
    account_form_field_is_editable, account_form_field_value, account_form_from_config,
    account_result_has_details, account_result_modal_detail, account_result_modal_hint,
    account_result_modal_title, account_summary_to_config, char_to_byte_index,
    default_account_index,
    delete_account_form_char, empty_account_operation_result, insert_account_form_char,
    merge_account_operation_result, next_gmail_credential_source, AccountConfig,
    AccountFormKeyOutcome, AccountFormMode, AccountFormState, AccountOperationResult,
    AccountOperationStep, AccountSendConfig, AccountSummary, AccountSyncConfig,
    AccountsPage, AccountsScreenKeyOutcome, GmailCredentialSource,
};
use mxr_tui::action::Action;
use mxr_tui::input::{KeyCode, KeyEvent, KeyModifiers};

fn key(code: KeyCode) -> KeyEvent {
    KeyEvent { code, modifiers: KeyModifiers::none() }
}

fn step(ok: bool, detail: &str) -> Option<AccountOperationStep> {
    Some(AccountOperationStep { ok, detail: detail.into() })
}

#[test]
fn new_form_defaults() {
    let f = AccountFormState::new();
    assert_eq!(f.mode, AccountFormMode::ImapSmtp);
    assert_eq!(f.imap_port, "993");
    assert_eq!(f.smtp_port, "587");
    assert!(f.imap_auth_required && f.smtp_auth_required);
    assert_eq!(f.gmail_credential_source, GmailCredentialSource::Bundled);
    assert_eq!(f.field_count(), 16);
}

#[test]
fn field_values_follow_the_mode() {
    let mut f = AccountFormState::new();
    f.key = "work".into();
    f.active_field = 1;
    assert_eq!(account_form_field_value(&f), Some("work"));
    f.active_field = 5;
    assert_eq!(account_form_field_value(&f), Some("993"));
    f.active_field = 7;
    assert_eq!(account_form_field_value(&f), None);
    assert!(!account_form_field_is_editable(&f));
    f.mode = AccountFormMode::Gmail;
    f.active_field = 5;
    assert_eq!(account_form_field_value(&f), None);
    f.gmail_credential_source = GmailCredentialSource::Custom;
    assert_eq!(f.field_count(), 8);
    assert_eq!(account_form_field_value(&f), Some(""));
}

#[test]
fn char_indices_map_to_bytes() {
    assert_eq!(char_to_byte_index("aé€b", 0), 0);
    assert_eq!(char_to_byte_index("aé€b", 2), 3);
    assert_eq!(char_to_byte_index("aé€b", 3), 6);
    assert_eq!(char_to_byte_index("aé€b", 9), 7);
}

#[test]
fn typing_and_deleting_at_the_cursor() {
    let mut f = AccountFormState::new();
    f.active_field = 1;
    insert_account_form_char(&mut f, 'a');
    insert_account_form_char(&mut f, 'c');
    f.field_cursor = 1;
    insert_account_form_char(&mut f, 'b');
    assert_eq!(f.key, "abc");
    assert_eq!(f.field_cursor, 2);
    delete_account_form_char(&mut f, true);
    assert_eq!(f.key, "ac");
    assert_eq!(f.field_cursor, 1);
    delete_account_form_char(&mut f, false);
    assert_eq!(f.key, "a");
    assert_eq!(f.field_cursor, 1);
    delete_account_form_char(&mut f, false);
    assert_eq!(f.key, "a");
}

#[test]
fn credential_source_flips() {
    assert_eq!(next_gmail_credential_source(GmailCredentialSource::Bundled, true), GmailCredentialSource::Custom);
    assert_eq!(next_gmail_credential_source(GmailCredentialSource::Custom, false), GmailCredentialSource::Bundled);
}

#[test]
fn validation_lists_problems_and_first_field() {
    let mut f = AccountFormState::new();
    f.imap_port = "99999".into();
    let (result, first) = f.validation_failure().unwrap();
    assert!(!result.ok);
    assert_eq!(result.summary, "Account form has problems. Fix the listed fields and try again.");
    assert_eq!(result.save, step(false, "Account key is required. Email is required."));
    assert_eq!(
        result.sync,
        step(false, "IMAP host is required. IMAP port must be a valid number. IMAP auth is enabled, so Email or IMAP user is required. IMAP auth is enabled, so IMAP password or IMAP pass ref is required.")
    );
    assert_eq!(first, 1);
    let mut ok = AccountFormState::new();
    ok.mode = AccountFormMode::Gmail;
    ok.key = "g".into();
    ok.email = "me@gmail.com".into();
    assert!(ok.validation_failure().is_none());
}

#[test]
fn form_data_fills_defaults() {
    let mut f = AccountFormState::new();
    f.key = " work ".into();
    f.email = "me@example.com".into();
    f.imap_host = "imap.example.com".into();
    f.smtp_host = "smtp.example.com".into();
    f.imap_port = " 143 ".into();
    let c = f.data(true);
    assert_eq!(c.key, "work");
    assert_eq!(c.name, "work");
    match c.sync {
        Some(AccountSyncConfig::Imap { port, username, password_ref, use_tls, .. }) => {
            assert_eq!(port, 993);
            assert_eq!(username, "me@example.com");
            assert_eq!(password_ref, "mxr/work-imap");
            assert!(use_tls);
        }
        _ => panic!("expected IMAP"),
    }
    assert!(c.enabled && c.is_default);
}

#[test]
fn result_modal_texts() {
    let mut r = empty_account_operation_result();
    assert!(!account_result_has_details(Some(&r)));
    assert!(!account_result_has_details(None));
    r.summary = "Account test failed".into();
    assert_eq!(account_result_modal_title(&r), "Account Test Failed");
    r.summary = "Account form has problems. x".into();
    assert_eq!(account_result_modal_title(&r), "Account Form Problems");
    r.summary = "done".into();
    assert_eq!(account_result_modal_title(&r), "Account Setup Details");
    r.sync = step(false, "Could not parse NAMESPACE response");
    assert!(account_result_has_details(Some(&r)));
    assert_eq!(
        account_result_modal_detail(&r),
        "done\n\nSync: failed\nCould not parse NAMESPACE response\nHint: This looks like an IMAP server compatibility issue, not a bad password."
    );
    assert_eq!(account_result_modal_hint("Send", "could not parse"), None);
}

#[test]
fn merging_results_chains_summaries() {
    let mut base = empty_account_operation_result();
    base.summary = "saved".into();
    let mut next: AccountOperationResult = empty_account_operation_result();
    next.ok = false;
    next.summary = "test failed".into();
    next.sync = step(false, "nope");
    merge_account_operation_result(&mut base, next);
    assert!(!base.ok);
    assert_eq!(base.summary, "saved | test failed");
    assert_eq!(base.sync, step(false, "nope"));
}

#[test]
fn summaries_without_key_have_no_config() {
    let summary = AccountSummary {
        key: None,
        name: "n".into(),
        email: "e".into(),
        provider_kind: "imap".into(),
        sync_kind: None,
        send_kind: None,
        sync: None,
        send: None,
        is_default: false,
        enabled: true,
    };
    assert!(account_summary_to_config(&summary).is_none());
    let keyed = AccountSummary { key: Some("k".into()), ..summary };
    let c = account_summary_to_config(&keyed).unwrap();
    assert_eq!(c.key, "k");
    assert!(c.enabled);
}

#[test]
fn config_opens_as_edit_form() {
    let c = AccountConfig {
        key: "me".into(),
        name: "Me".into(),
        email: "me@example.com".into(),
        sync: None,
        send: Some(AccountSendConfig::Gmail),
        is_default: false,
        enabled: true,
    };
    let f = account_form_from_config(c);
    assert!(f.visible && !f.is_new_account);
    assert_eq!(f.mode, AccountFormMode::SmtpOnly);
    assert_eq!(f.gmail_token_ref, "mxr/me-gmail");
}

#[test]
fn form_keys_run_actions_and_edit_fields() {
    let mut page = AccountsPage::new();
    page.open_new_account_form();
    assert!(matches!(page.handle_account_form_key(key(KeyCode::Char('s'))), AccountFormKeyOutcome::Run(Action::SaveAccountForm)));
    assert!(matches!(page.handle_account_form_key(key(KeyCode::Char('t'))), AccountFormKeyOutcome::Run(Action::TestAccountForm)));
    assert!(matches!(page.handle_account_form_key(key(KeyCode::Char('r'))), AccountFormKeyOutcome::Nothing));
    page.handle_account_form_key(key(KeyCode::Down));
    assert_eq!(page.form.active_field, 1);
    page.handle_account_form_key(key(KeyCode::Enter));
    assert!(page.form.editing_field);
    page.handle_account_form_key(key(KeyCode::Char('x')));
    page.handle_account_form_key(KeyEvent { code: KeyCode::Char('Y'), modifiers: KeyModifiers::shift() });
    assert_eq!(page.form.key, "xY");
    page.handle_account_form_key(key(KeyCode::Backspace));
    assert_eq!(page.form.key, "x");
    page.handle_account_form_key(key(KeyCode::Esc));
    assert!(!page.form.editing_field);
    page.handle_account_form_key(key(KeyCode::Up));
    page.handle_account_form_key(key(KeyCode::Right));
    assert_eq!(page.form.pending_mode_switch, Some(AccountFormMode::SmtpOnly));
    page.handle_account_form_key(key(KeyCode::Char('y')));
    assert_eq!(page.form.mode, AccountFormMode::SmtpOnly);
    assert_eq!(page.form.pending_mode_switch, None);
}

#[test]
fn closing_a_new_form_keeps_its_draft() {
    let mut page = AccountsPage::new();
    page.open_new_account_form();
    page.form.key = "draft".into();
    page.maybe_preserve_new_account_form_draft();
    assert!(!page.form.visible);
    assert!(page.new_account_draft.is_some());
    page.restore_new_account_form_draft();
    assert!(page.form.visible);
    assert_eq!(page.form.key, "draft");
    assert!(page.new_account_draft.is_none());
}

#[test]
fn modes_cycle_through_all_three() {
    let mut f = AccountFormState::new();
    let start = f.mode;
    let mut seen = vec![start];
    for _ in 0..3 {
        f.mode = f.next_mode(true);
        seen.push(f.mode);
    }
    assert_eq!(seen, vec![AccountFormMode::ImapSmtp, AccountFormMode::SmtpOnly, AccountFormMode::Gmail, AccountFormMode::ImapSmtp]);
    assert_eq!(f.next_mode(false), AccountFormMode::Gmail);
}

#[test]
fn validated_ports_reach_the_configuration() {
    let mut f = AccountFormState::new();
    f.key = "k".into();
    f.email = "me@example.com".into();
    f.imap_host = "imap".into();
    f.smtp_host = "smtp".into();
    f.imap_password = "secret".into();
    f.smtp_password_ref = "ref".into();
    f.imap_port = "143".into();
    f.smtp_port = "2525".into();
    assert!(f.validation_failure().is_none());
    let c = f.data(false);
    assert!(matches!(c.sync, Some(AccountSyncConfig::Imap { port: 143, .. })));
    assert!(matches!(c.send, Some(AccountSendConfig::Smtp { port: 2525, .. })));
}

fn listed(key: Option<&str>, name: &str) -> AccountSummary {
    AccountSummary {
        key: key.map(|k| k.to_string()),
        name: name.into(),
        email: "e@x".into(),
        provider_kind: "smtp".into(),
        sync_kind: None,
        send_kind: None,
        sync: None,
        send: None,
        is_default: false,
        enabled: true,
    }
}

#[test]
fn accounts_screen_list_keys() {
    let accounts = vec![listed(Some("work"), "Work"), listed(None, "Runtime")];
    let mut page = AccountsPage::new();
    let mut sel = 0usize;
    assert!(matches!(
        page.handle_accounts_screen_key(key(KeyCode::Char('j')), &accounts, &mut sel, false),
        AccountsScreenKeyOutcome::Nothing
    ));
    assert_eq!(sel, 1);
    page.handle_accounts_screen_key(key(KeyCode::Down), &accounts, &mut sel, false);
    assert_eq!(sel, 1);
    page.handle_accounts_screen_key(key(KeyCode::Enter), &accounts, &mut sel, false);
    assert_eq!(
        page.status.as_deref(),
        Some("Runtime-only account is inspectable but not editable here.")
    );
    assert!(!page.form.visible);
    page.handle_accounts_screen_key(key(KeyCode::Char('k')), &accounts, &mut sel, false);
    assert_eq!(sel, 0);
    page.handle_accounts_screen_key(key(KeyCode::Char('o')), &accounts, &mut sel, false);
    assert!(page.form.visible);
    assert!(!page.form.is_new_account);
    assert_eq!(page.form.key, "work");
    assert_eq!(page.form.mode, AccountFormMode::SmtpOnly);
}

#[test]
fn accounts_screen_action_keys() {
    let accounts = vec![listed(Some("a"), "A")];
    let mut page = AccountsPage::new();
    let mut sel = 0usize;
    let mut press = |page: &mut AccountsPage, k: KeyEvent, onboarding: bool| {
        match page.handle_accounts_screen_key(k, &accounts, &mut sel, onboarding) {
            AccountsScreenKeyOutcome::Run(a) => Some(a),
            _ => None,
        }
    };
    assert_eq!(press(&mut page, key(KeyCode::Char('n')), false), Some(Action::OpenAccountFormNew));
    assert_eq!(press(&mut page, key(KeyCode::Char('r')), false), Some(Action::RefreshAccounts));
    assert_eq!(press(&mut page, key(KeyCode::Char('t')), false), Some(Action::TestAccountForm));
    assert_eq!(press(&mut page, key(KeyCode::Char('d')), false), Some(Action::SetDefaultAccount));
    assert_eq!(press(&mut page, key(KeyCode::Char('c')), false), Some(Action::EditConfig));
    assert_eq!(press(&mut page, key(KeyCode::Esc), false), Some(Action::OpenMailboxScreen));
    assert_eq!(press(&mut page, key(KeyCode::Esc), true), None);
    assert!(matches!(
        page.handle_accounts_screen_key(key(KeyCode::Char('O')), &accounts, &mut sel, false),
        AccountsScreenKeyOutcome::Unbound
    ));
    page.last_result = Some(AccountOperationResult {
        ok: false,
        summary: "s".into(),
        save: step(false, "bad"),
        auth: None,
        sync: None,
        send: None,
        device_code_url: None,
        device_code_user_code: None,
    });
    assert!(matches!(
        page.handle_accounts_screen_key(key(KeyCode::Char('O')), &accounts, &mut sel, false),
        AccountsScreenKeyOutcome::ShowResultDetails
    ));
    assert!(matches!(
        page.handle_accounts_screen_key(key(KeyCode::Char('z')), &accounts, &mut sel, false),
        AccountsScreenKeyOutcome::Unbound
    ));
}

#[test]
fn accounts_screen_resume_draft_prompt() {
    let accounts: Vec<AccountSummary> = vec![];
    let mut page = AccountsPage::new();
    let mut sel = 0usize;
    page.resume_new_account_draft_prompt_open = true;
    let mut draft = AccountFormState::new();
    draft.key = "half".into();
    page.new_account_draft = Some(draft);
    page.handle_accounts_screen_key(key(KeyCode::Char('x')), &accounts, &mut sel, false);
    assert!(page.resume_new_account_draft_prompt_open);
    page.handle_accounts_screen_key(key(KeyCode::Char('c')), &accounts, &mut sel, false);
    assert!(!page.resume_new_account_draft_prompt_open);
    assert!(page.form.visible);
    assert_eq!(page.form.key, "half");

    let mut other = AccountsPage::new();
    other.resume_new_account_draft_prompt_open = true;
    other.new_account_draft = Some(AccountFormState::new());
    other.handle_accounts_screen_key(key(KeyCode::Char('n')), &accounts, &mut sel, false);
    assert!(other.new_account_draft.is_none());
    assert!(other.form.visible && other.form.is_new_account);

    let mut third = AccountsPage::new();
    third.resume_new_account_draft_prompt_open = true;
    third.handle_accounts_screen_key(key(KeyCode::Esc), &accounts, &mut sel, false);
    assert!(!third.resume_new_account_draft_prompt_open);
    assert!(!third.form.visible);
}

#[test]
fn fallback_account_prefers_the_enabled_default() {
    let mut a = listed(Some("a"), "A");
    let mut b = listed(Some("b"), "B");
    let mut c = listed(Some("c"), "C");
    b.is_default = true;
    b.enabled = false;
    c.is_default = true;
    assert_eq!(default_account_index(&[a.clone(), b.clone(), c.clone()]), Some(2));
    c.is_default = false;
    assert_eq!(default_account_index(&[a.clone(), b.clone(), c.clone()]), Some(0));
    a.enabled = false;
    assert_eq!(default_account_index(&[a.clone(), b.clone(), c.clone()]), Some(2));
    c.enabled = false;
    assert_eq!(default_account_index(&[a, b, c]), None);
    assert_eq!(default_account_index(&[]), None);
}
