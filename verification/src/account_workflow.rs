//! Saving an account: the listed form of a configured account, and the
//! sequence of daemon requests that authorizes, saves and tests it.
use vstd::prelude::*;
use crate::account_form::{
    AccountConfig, AccountOperationResult, AccountOperationStep, AccountSendConfig,
    AccountSummary, AccountSyncConfig, account_send_kind_label, account_sync_kind_label,
    empty_account_operation_result, merge_account_operation_result, merged_summary,
};
use crate::text::owned;

verus! {

broadcast use vstd::string::group_string_axioms;

/// The name of the sync provider of a configuration.
pub open spec fn sync_kind(s: AccountSyncConfig) -> Seq<char> {
    match s {
        AccountSyncConfig::Gmail { .. } => "gmail"@,
        AccountSyncConfig::Imap { .. } => "imap"@,
    }
}

/// The name of the send provider of a configuration.
pub open spec fn send_kind(s: AccountSendConfig) -> Seq<char> {
    match s {
        AccountSendConfig::Gmail => "gmail"@,
        AccountSendConfig::Smtp { .. } => "smtp"@,
    }
}

/// The provider an account is listed under: its sync provider, else its
/// send provider, else "unknown".
pub open spec fn provider_kind(a: AccountConfig) -> Seq<char> {
    match a.sync {
        Some(s) => sync_kind(s),
        None => match a.send {
            Some(s) => send_kind(s),
            None => "unknown"@,
        },
    }
}

/// Whether `r` is how the accounts list shows the configured account
/// `account`: keyed, enabled, with its provider names.
pub open spec fn summary_of(r: AccountSummary, account: AccountConfig) -> bool {
    &&& r.key == Some(account.key)
    &&& r.name == account.name
    &&& r.email == account.email
    &&& r.provider_kind@ == provider_kind(account)
    &&& match account.sync {
        Some(s) => r.sync_kind matches Some(k) && k@ == sync_kind(s),
        None => r.sync_kind is None,
    }
    &&& match account.send {
        Some(s) => r.send_kind matches Some(k) && k@ == send_kind(s),
        None => r.send_kind is None,
    }
    &&& r.sync == account.sync
    &&& r.send == account.send
    &&& r.enabled
    &&& r.is_default == account.is_default
}

/// An account of the configuration file as the accounts list shows it:
/// enabled, keyed, with its provider names.
pub fn account_config_to_summary(account: AccountConfig) -> (r: AccountSummary)
    ensures
        summary_of(r, account),
{
    let sync_label = match &account.sync {
        Some(s) => Some(account_sync_kind_label(s)),
        None => None,
    };
    let send_label = match &account.send {
        Some(s) => Some(account_send_kind_label(s)),
        None => None,
    };
    let provider = match &sync_label {
        Some(l) => l.clone(),
        None => match &send_label {
            Some(l) => l.clone(),
            None => owned("unknown"),
        },
    };
    AccountSummary {
        key: Some(account.key),
        name: account.name,
        email: account.email,
        provider_kind: provider,
        sync_kind: sync_label,
        send_kind: send_label,
        sync: account.sync,
        send: account.send,
        is_default: account.is_default,
        enabled: true,
    }
}

// ---------------------------------------------------------------------
// The save workflow
// ---------------------------------------------------------------------

/// A request about the account being saved.
#[derive(Debug, Clone, Copy, PartialEq, Eq, Structural)]
pub enum AccountRequest {
    /// Run the provider's authorization (not a re-authorization).
    Authorize,
    /// Write the account to the configuration.
    Upsert,
    /// Test the connection of the account.
    Test,
}

/// Where the save workflow stands.
#[derive(Debug, Clone, Copy, PartialEq, Eq, Structural)]
pub enum SaveStage {
    Authorizing,
    Saving,
    Testing,
    Finished,
}

/// The save workflow: the result gathered so far and the request whose
/// answer it waits for.
pub struct SaveWorkflow {
    pub result: AccountOperationResult,
    pub stage: SaveStage,
}

/// What the workflow asks for next.
pub enum SaveWorkflowStep {
    /// Send this request and hand its result to `advance_save_workflow`.
    Send(AccountRequest),
    /// The workflow is over with this result.
    Done(AccountOperationResult),
}

/// The request the workflow waits for at a stage.
pub open spec fn stage_request(stage: SaveStage) -> Option<AccountRequest> {
    match stage {
        SaveStage::Authorizing => Some(AccountRequest::Authorize),
        SaveStage::Saving => Some(AccountRequest::Upsert),
        SaveStage::Testing => Some(AccountRequest::Test),
        SaveStage::Finished => None,
    }
}

/// Whether a step is reported and failed.
pub open spec fn step_failed(s: Option<AccountOperationStep>) -> bool {
    match s {
        Some(step) => !step.ok,
        None => false,
    }
}

/// Whether an account authorizes with its provider before it is saved.
pub open spec fn needs_authorization(a: AccountConfig) -> bool {
    a.sync matches Some(AccountSyncConfig::Gmail { .. })
}

fn failed(s: &Option<AccountOperationStep>) -> (b: bool)
    ensures
        b == step_failed(*s),
{
    match s {
        Some(step) => !step.ok,
        None => false,
    }
}

/// Starts saving an account: accounts that authorize with their provider
/// are authorized first; the others start with an empty result and are
/// saved at once.
pub fn start_account_save_workflow(account: &AccountConfig) -> (w: SaveWorkflow)
    ensures
        needs_authorization(*account) ==> w.stage == SaveStage::Authorizing,
        !needs_authorization(*account) ==> w.stage == SaveStage::Saving,
        w.result.ok,
        w.result.summary@.len() == 0,
        w.result.save is None && w.result.auth is None && w.result.sync is None
            && w.result.send is None,
{
    let result = empty_account_operation_result();
    let stage = match &account.sync {
        Some(AccountSyncConfig::Gmail { .. }) => SaveStage::Authorizing,
        _ => SaveStage::Saving,
    };
    SaveWorkflow { result, stage }
}

/// Starts saving an account whose authorization already succeeded: the
/// auth step is recorded as passed and the account is saved.
pub fn start_post_auth_save_workflow() -> (w: SaveWorkflow)
    ensures
        w.stage == SaveStage::Saving,
        w.result.ok,
        w.result.summary@.len() == 0,
        w.result.auth matches Some(step) && step.ok && step.detail@.len() == 0,
        w.result.save is None && w.result.sync is None && w.result.send is None,
{
    let mut result = empty_account_operation_result();
    result.auth = Some(AccountOperationStep { ok: true, detail: String::new() });
    SaveWorkflow { result, stage: SaveStage::Saving }
}

/// The request to send next, or the result when the workflow is over.
pub fn save_workflow_step(w: &SaveWorkflow) -> (s: SaveWorkflowStep)
    ensures
        match stage_request(w.stage) {
            Some(req) => s == SaveWorkflowStep::Send(req),
            None => s matches SaveWorkflowStep::Done(r) && r == w.result,
        },
{
    match w.stage {
        SaveStage::Authorizing => SaveWorkflowStep::Send(AccountRequest::Authorize),
        SaveStage::Saving => SaveWorkflowStep::Send(AccountRequest::Upsert),
        SaveStage::Testing => SaveWorkflowStep::Send(AccountRequest::Test),
        SaveStage::Finished => SaveWorkflowStep::Done(w.result.duplicate()),
    }
}

/// Takes in the daemon's result for the request the workflow waited for:
/// the authorization result becomes the workflow's result, and a failed
/// authorization ends it; the save and test results are folded in, and a
/// failed save ends it; the test result always ends it. A finished
/// workflow is left as it is.
pub fn advance_save_workflow(w: &mut SaveWorkflow, reply: AccountOperationResult)
    ensures
        match old(w).stage {
            SaveStage::Authorizing => {
                &&& final(w).result == reply
                &&& final(w).stage == if step_failed(reply.auth) {
                    SaveStage::Finished
                } else {
                    SaveStage::Saving
                }
            },
            SaveStage::Saving => {
                &&& final(w).result.ok == (old(w).result.ok && reply.ok)
                &&& final(w).result.summary@ == merged_summary(old(w).result.summary@, reply.summary@)
                &&& final(w).result.save == (if reply.save is Some { reply.save } else { old(w).result.save })
                &&& final(w).result.auth == (if reply.auth is Some { reply.auth } else { old(w).result.auth })
                &&& final(w).result.sync == (if reply.sync is Some { reply.sync } else { old(w).result.sync })
                &&& final(w).result.send == (if reply.send is Some { reply.send } else { old(w).result.send })
                &&& final(w).result.device_code_url == old(w).result.device_code_url
                &&& final(w).result.device_code_user_code == old(w).result.device_code_user_code
                &&& final(w).stage == if step_failed(final(w).result.save) {
                    SaveStage::Finished
                } else {
                    SaveStage::Testing
                }
            },
            SaveStage::Testing => {
                &&& final(w).result.ok == (old(w).result.ok && reply.ok)
                &&& final(w).result.summary@ == merged_summary(old(w).result.summary@, reply.summary@)
                &&& final(w).result.save == (if reply.save is Some { reply.save } else { old(w).result.save })
                &&& final(w).result.auth == (if reply.auth is Some { reply.auth } else { old(w).result.auth })
                &&& final(w).result.sync == (if reply.sync is Some { reply.sync } else { old(w).result.sync })
                &&& final(w).result.send == (if reply.send is Some { reply.send } else { old(w).result.send })
                &&& final(w).result.device_code_url == old(w).result.device_code_url
                &&& final(w).result.device_code_user_code == old(w).result.device_code_user_code
                &&& final(w).stage == SaveStage::Finished
            },
            SaveStage::Finished => *final(w) == *old(w),
        },
{
    match w.stage {
        SaveStage::Authorizing => {
            let stop = failed(&reply.auth);
            w.result = reply;
            w.stage = if stop {
                SaveStage::Finished
            } else {
                SaveStage::Saving
            };
        },
        SaveStage::Saving => {
            merge_account_operation_result(&mut w.result, reply);
            w.stage = if failed(&w.result.save) {
                SaveStage::Finished
            } else {
                SaveStage::Testing
            };
        },
        SaveStage::Testing => {
            merge_account_operation_result(&mut w.result, reply);
            w.stage = SaveStage::Finished;
        },
        SaveStage::Finished => {},
    }
}


// ---------------------------------------------------------------------
// Reading the daemon's answers
// ---------------------------------------------------------------------

/// What the daemon answered a request, as the account screens read it.
pub enum DaemonReply<T> {
    /// The kind of answer the request asks for, with its data.
    Expected(T),
    /// An error answer, with its message.
    Error(String),
    /// An answer of another kind.
    Unexpected,
}

/// Why a request to the daemon failed.
#[derive(Debug, Clone, PartialEq, Eq)]
pub enum DaemonError {
    /// The daemon answered with an error, or with an answer of the wrong
    /// kind.
    Ipc(String),
    /// The request did not reach the daemon, or its answer could not be
    /// read.
    Transport(String),
}

/// The data of an answer: the expected data, the daemon's error message,
/// `unexpected` for an answer of another kind, or the failure of the
/// call itself.
pub open spec fn reply_result<T>(reply: Result<DaemonReply<T>, DaemonError>, unexpected: Seq<char>, r: Result<T, DaemonError>) -> bool {
    match reply {
        Ok(DaemonReply::Expected(t)) => r == Ok::<T, DaemonError>(t),
        Ok(DaemonReply::Error(m)) => r == Err::<T, DaemonError>(DaemonError::Ipc(m)),
        Ok(DaemonReply::Unexpected) => match r {
            Err(DaemonError::Ipc(s)) => s@ == unexpected,
            _ => false,
        },
        Err(e) => r == Err::<T, DaemonError>(e),
    }
}

fn expect_reply<T>(reply: Result<DaemonReply<T>, DaemonError>, unexpected: &str) -> (r: Result<T, DaemonError>)
    ensures
        reply_result(reply, unexpected@, r),
{
    match reply {
        Ok(DaemonReply::Expected(t)) => Ok(t),
        Ok(DaemonReply::Error(m)) => Err(DaemonError::Ipc(m)),
        Ok(DaemonReply::Unexpected) => Err(DaemonError::Ipc(owned(unexpected))),
        Err(e) => Err(e),
    }
}

/// The result of an account operation (authorize, save, test) from the
/// daemon's answer.
pub fn account_operation_reply(reply: Result<DaemonReply<AccountOperationResult>, DaemonError>) -> (r: Result<
    AccountOperationResult,
    DaemonError,
>)
    ensures
        reply_result(reply, "unexpected response to account operation"@, r),
{
    expect_reply(reply, "unexpected response to account operation")
}

/// The authorization session the daemon started, from its answer.
pub fn start_auth_session_reply<T>(reply: Result<DaemonReply<T>, DaemonError>) -> (r: Result<T, DaemonError>)
    ensures
        reply_result(reply, "unexpected response to StartAuthSession"@, r),
{
    expect_reply(reply, "unexpected response to StartAuthSession")
}

/// The state of an authorization session, from the daemon's answer.
pub fn get_auth_session_reply<T>(reply: Result<DaemonReply<T>, DaemonError>) -> (r: Result<T, DaemonError>)
    ensures
        reply_result(reply, "unexpected response to GetAuthSession"@, r),
{
    expect_reply(reply, "unexpected response to GetAuthSession")
}

/// What the accounts page does with the daemon's list of accounts.
pub enum AccountsLoad {
    /// Show these accounts.
    Loaded(Vec<AccountSummary>),
    /// Ask for the accounts of the configuration file instead.
    FromConfig,
    /// Give up with this error.
    Failed(DaemonError),
}

/// Reads the daemon's list of accounts: a non-empty list is shown; an
/// empty list, an error answer or a failed call fall back to the
/// configuration file; an answer of another kind is an error.
pub fn accounts_list_reply(reply: Result<DaemonReply<Vec<AccountSummary>>, DaemonError>) -> (r: AccountsLoad)
    ensures
        match reply {
            Ok(DaemonReply::Expected(v)) => if v.len() > 0 {
                r == AccountsLoad::Loaded(v)
            } else {
                r is FromConfig
            },
            Ok(DaemonReply::Error(_)) => r is FromConfig,
            Ok(DaemonReply::Unexpected) => match r {
                AccountsLoad::Failed(DaemonError::Ipc(s)) => s@ == "unexpected response"@,
                _ => false,
            },
            Err(_) => r is FromConfig,
        },
{
    match reply {
        Ok(DaemonReply::Expected(v)) => {
            if v.len() > 0 {
                AccountsLoad::Loaded(v)
            } else {
                AccountsLoad::FromConfig
            }
        },
        Ok(DaemonReply::Error(_)) => AccountsLoad::FromConfig,
        Ok(DaemonReply::Unexpected) => AccountsLoad::Failed(DaemonError::Ipc(owned("unexpected response"))),
        Err(_) => AccountsLoad::FromConfig,
    }
}

/// The accounts of the configuration file as the accounts list shows
/// them, from the daemon's answer; its error message, or "unexpected
/// response", or the failure of the call otherwise.
pub fn config_accounts_reply(reply: Result<DaemonReply<Vec<AccountConfig>>, DaemonError>) -> (r: Result<
    Vec<AccountSummary>,
    DaemonError,
>)
    ensures
        match reply {
            Ok(DaemonReply::Expected(accounts)) => match r {
                Ok(v) => v.len() == accounts.len() && forall|i: int|
                    0 <= i < accounts.len() ==> #[trigger] summary_of(v@[i], accounts@[i]),
                Err(_) => false,
            },
            Ok(DaemonReply::Error(m)) => r == Err::<Vec<AccountSummary>, DaemonError>(DaemonError::Ipc(m)),
            Ok(DaemonReply::Unexpected) => match r {
                Err(DaemonError::Ipc(s)) => s@ == "unexpected response"@,
                _ => false,
            },
            Err(e) => r == Err::<Vec<AccountSummary>, DaemonError>(e),
        },
{
    match reply {
        Ok(DaemonReply::Expected(accounts)) => {
            let ghost start = accounts@;
            let mut rest = accounts;
            let mut out: Vec<AccountSummary> = Vec::new();
            let mut i: usize = 0;
            let n = rest.len();
            while i < n
                invariant
                    n == start.len(),
                    i <= n,
                    rest@ == start.skip(i as int),
                    out.len() == i,
                    forall|j: int| 0 <= j < i ==> #[trigger] summary_of(out@[j], start[j]),
                decreases n - i,
            {
                let a = rest.remove(0);
                assert(a == start[i as int]);
                out.push(account_config_to_summary(a));
                i = i + 1;
                assert(rest@ =~= start.skip(i as int));
            }
            Ok(out)
        },
        Ok(DaemonReply::Error(m)) => Err(DaemonError::Ipc(m)),
        Ok(DaemonReply::Unexpected) => Err(DaemonError::Ipc(owned("unexpected response"))),
        Err(e) => Err(e),
    }
}

} // verus!
