use mxr_tui::account_form::{
    AccountConfig, AccountOperationResult, AccountOperationStep, AccountSendConfig,
    AccountSyncConfig, GmailCredentialSource,
};
use mxr_tui::account_workflow::{
    account_operation_reply, accounts_list_reply, config_accounts_reply, get_auth_session_reply,
    start_auth_session_reply, AccountsLoad, DaemonError, DaemonReply,
    account_config_to_summary, advance_save_workflow, save_workflow_step,
    start_account_save_workflow, start_post_auth_save_workflow, AccountRequest, SaveStage,
    SaveWorkflowStep,
};

fn smtp() -> AccountSendConfig {
    AccountSendConfig::Smtp {
        host: "smtp.example.com".into(),
        port: 587,
        username: "me".into(),
        password_ref: "ref".into(),
        password: None,
        auth_required: true,
        use_tls: true,
    }
}

fn account(sync: Option<AccountSyncConfig>, send: Option<AccountSendConfig>) -> AccountConfig {
    AccountConfig {
        key: "work".into(),
        name: "Work".into(),
        email: "me@example.com".into(),
        sync,
        send,
        is_default: true,
        enabled: false,
    }
}

fn gmail() -> AccountSyncConfig {
    AccountSyncConfig::Gmail {
        credential_source: GmailCredentialSource::Bundled,
        client_id: String::new(),
        client_secret: None,
        token_ref: "mxr/work-gmail".into(),
    }
}

fn step(ok: bool, detail: &str) -> Option<AccountOperationStep> {
    Some(AccountOperationStep { ok, detail: detail.into() })
}

fn reply(ok: bool, summary: &str) -> AccountOperationResult {
    AccountOperationResult {
        ok,
        summary: summary.into(),
        save: None,
        auth: None,
        sync: None,
        send: None,
        device_code_url: None,
        device_code_user_code: None,
    }
}

#[test]
fn summary_names_the_provider() {
    let s = account_config_to_summary(account(Some(gmail()), Some(AccountSendConfig::Gmail)));
    assert_eq!(s.provider_kind, "gmail");
    assert_eq!(s.sync_kind.as_deref(), Some("gmail"));
    assert_eq!(s.send_kind.as_deref(), Some("gmail"));
    assert_eq!(s.key.as_deref(), Some("work"));
    assert!(s.enabled && s.is_default);
    let s = account_config_to_summary(account(None, Some(smtp())));
    assert_eq!(s.provider_kind, "smtp");
    assert_eq!(s.sync_kind, None);
    let s = account_config_to_summary(account(None, None));
    assert_eq!(s.provider_kind, "unknown");
}

#[test]
fn gmail_accounts_authorize_first() {
    let w = start_account_save_workflow(&account(Some(gmail()), None));
    assert!(matches!(save_workflow_step(&w), SaveWorkflowStep::Send(AccountRequest::Authorize)));
    let w = start_account_save_workflow(&account(None, Some(smtp())));
    assert!(matches!(save_workflow_step(&w), SaveWorkflowStep::Send(AccountRequest::Upsert)));
}

#[test]
fn failed_authorization_stops_before_saving() {
    let mut w = start_account_save_workflow(&account(Some(gmail()), None));
    let mut r = reply(false, "auth failed");
    r.auth = step(false, "denied");
    advance_save_workflow(&mut w, r);
    match save_workflow_step(&w) {
        SaveWorkflowStep::Done(result) => {
            assert!(!result.ok);
            assert_eq!(result.summary, "auth failed");
        }
        _ => panic!("expected the end"),
    }
}

#[test]
fn save_then_test_fold_their_results() {
    let mut w = start_account_save_workflow(&account(None, Some(smtp())));
    let mut saved = reply(true, "saved");
    saved.save = step(true, "written");
    advance_save_workflow(&mut w, saved);
    assert_eq!(w.stage, SaveStage::Testing);
    let mut tested = reply(false, "test failed");
    tested.send = step(false, "refused");
    advance_save_workflow(&mut w, tested);
    match save_workflow_step(&w) {
        SaveWorkflowStep::Done(result) => {
            assert!(!result.ok);
            assert_eq!(result.summary, "saved | test failed");
            assert_eq!(result.save, step(true, "written"));
            assert_eq!(result.send, step(false, "refused"));
        }
        _ => panic!("expected the end"),
    }
}

#[test]
fn failed_save_stops_before_testing() {
    let mut w = start_post_auth_save_workflow();
    assert_eq!(w.result.auth, step(true, ""));
    let mut saved = reply(false, "");
    saved.save = step(false, "disk full");
    advance_save_workflow(&mut w, saved);
    assert_eq!(w.stage, SaveStage::Finished);
    assert_eq!(w.result.summary, "");
    assert_eq!(w.result.auth, step(true, ""));
}

#[test]
fn daemon_replies_are_read() {
    assert_eq!(account_operation_reply(Ok(DaemonReply::Expected(reply(true, "ok")))).unwrap().summary, "ok");
    assert_eq!(
        account_operation_reply(Ok(DaemonReply::Error("boom".into()))).unwrap_err(),
        DaemonError::Ipc("boom".into())
    );
    assert_eq!(
        account_operation_reply(Ok(DaemonReply::Unexpected)).unwrap_err(),
        DaemonError::Ipc("unexpected response to account operation".into())
    );
    assert_eq!(
        account_operation_reply(Err(DaemonError::Transport("down".into()))).unwrap_err(),
        DaemonError::Transport("down".into())
    );
    assert_eq!(start_auth_session_reply(Ok(DaemonReply::Expected(7u32))), Ok(7));
    assert_eq!(
        start_auth_session_reply::<u32>(Ok(DaemonReply::Unexpected)),
        Err(DaemonError::Ipc("unexpected response to StartAuthSession".into()))
    );
    assert_eq!(
        get_auth_session_reply::<u32>(Ok(DaemonReply::Unexpected)),
        Err(DaemonError::Ipc("unexpected response to GetAuthSession".into()))
    );
}

#[test]
fn empty_or_failed_account_lists_fall_back_to_the_config() {
    let listed = account_config_to_summary(account(None, Some(smtp())));
    assert!(matches!(accounts_list_reply(Ok(DaemonReply::Expected(vec![listed]))), AccountsLoad::Loaded(v) if v.len() == 1));
    assert!(matches!(accounts_list_reply(Ok(DaemonReply::Expected(vec![]))), AccountsLoad::FromConfig));
    assert!(matches!(accounts_list_reply(Ok(DaemonReply::Error("x".into()))), AccountsLoad::FromConfig));
    assert!(matches!(accounts_list_reply(Err(DaemonError::Transport("x".into()))), AccountsLoad::FromConfig));
    assert!(matches!(
        accounts_list_reply(Ok(DaemonReply::Unexpected)),
        AccountsLoad::Failed(DaemonError::Ipc(m)) if m == "unexpected response"
    ));
}

#[test]
fn config_accounts_become_summaries() {
    let v = config_accounts_reply(Ok(DaemonReply::Expected(vec![
        account(Some(gmail()), None),
        account(None, Some(smtp())),
    ])))
    .unwrap();
    assert_eq!(v.len(), 2);
    assert_eq!(v[0].provider_kind, "gmail");
    assert_eq!(v[1].provider_kind, "smtp");
    assert_eq!(
        config_accounts_reply(Ok(DaemonReply::Error("denied".into()))).unwrap_err(),
        DaemonError::Ipc("denied".into())
    );
    assert_eq!(
        config_accounts_reply(Ok(DaemonReply::Unexpected)).unwrap_err(),
        DaemonError::Ipc("unexpected response".into())
    );
}
