//! The account setup form: its fields per mode, editing, validation, the
//! account configuration it produces, and the key handling of the form.
use vstd::prelude::*;
use crate::text::{
    chars_of, string_of, blank, trim_str, parse_u16, join_strings, concat2, concat3, contains_str,
    starts_with_str, str_eq, ascii_lowercase_str, u64_to_decimal, is_blank, trim, parse_unsigned,
    join, contains, starts_with, ascii_lowercase, decimal,
};
use crate::action::Action;
use crate::input::{KeyCode, KeyEvent, plain_or_shift, is_plain_or_shift};

verus! {

broadcast use vstd::string::group_string_axioms;

// ---------------------------------------------------------------------
// Account configuration as the daemon exchanges it
// ---------------------------------------------------------------------

/// Which OAuth client a Gmail account authorizes with.
#[derive(Debug, Clone, Copy, PartialEq, Eq, Structural)]
pub enum GmailCredentialSource {
    Bundled,
    Custom,
}

/// How an account receives mail.
#[derive(Debug, Clone, PartialEq, Eq)]
pub enum AccountSyncConfig {
    Gmail {
        credential_source: GmailCredentialSource,
        client_id: String,
        client_secret: Option<String>,
        token_ref: String,
    },
    Imap {
        host: String,
        port: u16,
        username: String,
        password_ref: String,
        password: Option<String>,
        auth_required: bool,
        use_tls: bool,
    },
}

/// How an account sends mail.
#[derive(Debug, Clone, PartialEq, Eq)]
pub enum AccountSendConfig {
    Gmail,
    Smtp {
        host: String,
        port: u16,
        username: String,
        password_ref: String,
        password: Option<String>,
        auth_required: bool,
        use_tls: bool,
    },
}

/// An account as it is written to the configuration.
#[derive(Debug, Clone, PartialEq, Eq)]
pub struct AccountConfig {
    pub key: String,
    pub name: String,
    pub email: String,
    pub sync: Option<AccountSyncConfig>,
    pub send: Option<AccountSendConfig>,
    pub is_default: bool,
    pub enabled: bool,
}

/// An account as the accounts list shows it.
#[derive(Debug, Clone, PartialEq, Eq)]
pub struct AccountSummary {
    pub key: Option<String>,
    pub name: String,
    pub email: String,
    /// The provider named after the sync side, else the send side.
    pub provider_kind: String,
    pub sync_kind: Option<String>,
    pub send_kind: Option<String>,
    pub sync: Option<AccountSyncConfig>,
    pub send: Option<AccountSendConfig>,
    pub is_default: bool,
    pub enabled: bool,
}

/// One step (save, auth, sync or send) of an account operation.
#[derive(Debug, Clone, PartialEq, Eq)]
pub struct AccountOperationStep {
    pub ok: bool,
    pub detail: String,
}

/// The outcome of saving, testing or authorizing an account.
#[derive(Debug, Clone, PartialEq, Eq)]
pub struct AccountOperationResult {
    pub ok: bool,
    pub summary: String,
    pub save: Option<AccountOperationStep>,
    pub auth: Option<AccountOperationStep>,
    pub sync: Option<AccountOperationStep>,
    pub send: Option<AccountOperationStep>,
    pub device_code_url: Option<String>,
    pub device_code_user_code: Option<String>,
}

// ---------------------------------------------------------------------
// The form
// ---------------------------------------------------------------------

/// The three kinds of account the form sets up.
#[derive(Debug, Clone, Copy, PartialEq, Eq, Structural)]
pub enum AccountFormMode {
    Gmail,
    ImapSmtp,
    SmtpOnly,
}

/// The form fields that are switched rather than typed.
#[derive(Debug, Clone, Copy, PartialEq, Eq, Structural)]
pub enum AccountFormToggleField {
    GmailCredentialSource,
    ImapAuthRequired,
    SmtpAuthRequired,
}

/// The account form. Field 0 is the mode selector; the fields after it
/// depend on the mode.
#[derive(Debug, Clone)]
pub struct AccountFormState {
    pub visible: bool,
    pub is_new_account: bool,
    pub mode: AccountFormMode,
    pub pending_mode_switch: Option<AccountFormMode>,
    pub key: String,
    pub name: String,
    pub email: String,
    pub gmail_credential_source: GmailCredentialSource,
    pub gmail_client_id: String,
    pub gmail_client_secret: String,
    pub gmail_token_ref: String,
    pub gmail_authorized: bool,
    pub imap_host: String,
    pub imap_port: String,
    pub imap_username: String,
    pub imap_password_ref: String,
    pub imap_password: String,
    pub imap_auth_required: bool,
    pub smtp_host: String,
    pub smtp_port: String,
    pub smtp_username: String,
    pub smtp_password_ref: String,
    pub smtp_password: String,
    pub smtp_auth_required: bool,
    pub active_field: usize,
    pub editing_field: bool,
    pub field_cursor: usize,
    pub last_result: Option<AccountOperationResult>,
}

/// The text fields of the form.
#[derive(Debug, Clone, Copy, PartialEq, Eq, Structural)]
pub enum FieldSlot {
    Key,
    Name,
    Email,
    GmailClientId,
    GmailClientSecret,
    ImapHost,
    ImapPort,
    ImapUsername,
    ImapPasswordRef,
    ImapPassword,
    SmtpHost,
    SmtpPort,
    SmtpUsername,
    SmtpPasswordRef,
    SmtpPassword,
}

/// Number of fields the form shows in a mode.
pub open spec fn field_count_of(mode: AccountFormMode, source: GmailCredentialSource) -> nat {
    match mode {
        AccountFormMode::Gmail => if source == GmailCredentialSource::Custom {
            8
        } else {
            6
        },
        AccountFormMode::ImapSmtp => 16,
        AccountFormMode::SmtpOnly => 10,
    }
}

/// Which text field sits at a position of the form, if any.
pub open spec fn slot_at(mode: AccountFormMode, source: GmailCredentialSource, field: int) -> Option<
    FieldSlot,
> {
    if field == 1 {
        Some(FieldSlot::Key)
    } else if field == 2 {
        Some(FieldSlot::Name)
    } else if field == 3 {
        Some(FieldSlot::Email)
    } else {
        match mode {
            AccountFormMode::Gmail => if source == GmailCredentialSource::Custom && field == 5 {
                Some(FieldSlot::GmailClientId)
            } else if source == GmailCredentialSource::Custom && field == 6 {
                Some(FieldSlot::GmailClientSecret)
            } else {
                None
            },
            AccountFormMode::ImapSmtp => if field == 4 {
                Some(FieldSlot::ImapHost)
            } else if field == 5 {
                Some(FieldSlot::ImapPort)
            } else if field == 6 {
                Some(FieldSlot::ImapUsername)
            } else if field == 8 {
                Some(FieldSlot::ImapPasswordRef)
            } else if field == 9 {
                Some(FieldSlot::ImapPassword)
            } else if field == 10 {
                Some(FieldSlot::SmtpHost)
            } else if field == 11 {
                Some(FieldSlot::SmtpPort)
            } else if field == 12 {
                Some(FieldSlot::SmtpUsername)
            } else if field == 14 {
                Some(FieldSlot::SmtpPasswordRef)
            } else if field == 15 {
                Some(FieldSlot::SmtpPassword)
            } else {
                None
            },
            AccountFormMode::SmtpOnly => if field == 4 {
                Some(FieldSlot::SmtpHost)
            } else if field == 5 {
                Some(FieldSlot::SmtpPort)
            } else if field == 6 {
                Some(FieldSlot::SmtpUsername)
            } else if field == 8 {
                Some(FieldSlot::SmtpPasswordRef)
            } else if field == 9 {
                Some(FieldSlot::SmtpPassword)
            } else {
                None
            },
        }
    }
}

impl AccountFormState {
    /// The text held by a field.
    pub open spec fn slot_text(&self, slot: FieldSlot) -> Seq<char> {
        match slot {
            FieldSlot::Key => self.key@,
            FieldSlot::Name => self.name@,
            FieldSlot::Email => self.email@,
            FieldSlot::GmailClientId => self.gmail_client_id@,
            FieldSlot::GmailClientSecret => self.gmail_client_secret@,
            FieldSlot::ImapHost => self.imap_host@,
            FieldSlot::ImapPort => self.imap_port@,
            FieldSlot::ImapUsername => self.imap_username@,
            FieldSlot::ImapPasswordRef => self.imap_password_ref@,
            FieldSlot::ImapPassword => self.imap_password@,
            FieldSlot::SmtpHost => self.smtp_host@,
            FieldSlot::SmtpPort => self.smtp_port@,
            FieldSlot::SmtpUsername => self.smtp_username@,
            FieldSlot::SmtpPasswordRef => self.smtp_password_ref@,
            FieldSlot::SmtpPassword => self.smtp_password@,
        }
    }

    /// The text field under the focus, if the focused field is one.
    pub open spec fn active_slot(&self) -> Option<FieldSlot> {
        slot_at(self.mode, self.gmail_credential_source, self.active_field as int)
    }

    /// The text of the focused field, if it is a text field.
    pub open spec fn active_text(&self) -> Option<Seq<char>> {
        match self.active_slot() {
            Some(slot) => Some(self.slot_text(slot)),
            None => None,
        }
    }

    /// Number of fields shown in the current mode.
    pub open spec fn spec_field_count(&self) -> nat {
        field_count_of(self.mode, self.gmail_credential_source)
    }

    /// Every text field but the one at `slot` agrees in both forms, as do
    /// the fields that are not text.
    pub open spec fn same_except_slot(&self, other: &Self, slot: FieldSlot) -> bool {
        &&& self.visible == other.visible
        &&& self.is_new_account == other.is_new_account
        &&& self.mode == other.mode
        &&& self.pending_mode_switch == other.pending_mode_switch
        &&& self.gmail_credential_source == other.gmail_credential_source
        &&& self.gmail_token_ref == other.gmail_token_ref
        &&& self.gmail_authorized == other.gmail_authorized
        &&& self.imap_auth_required == other.imap_auth_required
        &&& self.smtp_auth_required == other.smtp_auth_required
        &&& self.active_field == other.active_field
        &&& self.editing_field == other.editing_field
        &&& self.last_result == other.last_result
        &&& forall|s: FieldSlot| s != slot ==> #[trigger] self.slot_text(s) == other.slot_text(s)
    }

    /// A fresh form: IMAP/SMTP mode, the standard ports, authentication
    /// on, the bundled Gmail client, nothing typed yet.
    pub fn new() -> (f: Self)
        ensures
            f.is_default(),
    {
        AccountFormState {
            visible: false,
            is_new_account: false,
            mode: AccountFormMode::ImapSmtp,
            pending_mode_switch: None,
            key: String::new(),
            name: String::new(),
            email: String::new(),
            gmail_credential_source: GmailCredentialSource::Bundled,
            gmail_client_id: String::new(),
            gmail_client_secret: String::new(),
            gmail_token_ref: String::new(),
            gmail_authorized: false,
            imap_host: String::new(),
            imap_port: String::from_str("993"),
            imap_username: String::new(),
            imap_password_ref: String::new(),
            imap_password: String::new(),
            imap_auth_required: true,
            smtp_host: String::new(),
            smtp_port: String::from_str("587"),
            smtp_username: String::new(),
            smtp_password_ref: String::new(),
            smtp_password: String::new(),
            smtp_auth_required: true,
            active_field: 0,
            editing_field: false,
            field_cursor: 0,
            last_result: None,
        }
    }

    /// The state of a fresh form.
    pub open spec fn is_default(&self) -> bool {
        &&& !self.visible
        &&& !self.is_new_account
        &&& self.mode == AccountFormMode::ImapSmtp
        &&& self.pending_mode_switch is None
        &&& self.key@.len() == 0
        &&& self.name@.len() == 0
        &&& self.email@.len() == 0
        &&& self.gmail_credential_source == GmailCredentialSource::Bundled
        &&& self.gmail_client_id@.len() == 0
        &&& self.gmail_client_secret@.len() == 0
        &&& self.gmail_token_ref@.len() == 0
        &&& !self.gmail_authorized
        &&& self.imap_host@.len() == 0
        &&& self.imap_port@ == "993"@
        &&& self.imap_username@.len() == 0
        &&& self.imap_password_ref@.len() == 0
        &&& self.imap_password@.len() == 0
        &&& self.imap_auth_required
        &&& self.smtp_host@.len() == 0
        &&& self.smtp_port@ == "587"@
        &&& self.smtp_username@.len() == 0
        &&& self.smtp_password_ref@.len() == 0
        &&& self.smtp_password@.len() == 0
        &&& self.smtp_auth_required
        &&& self.active_field == 0
        &&& !self.editing_field
        &&& self.field_cursor == 0
        &&& self.last_result is None
    }

    /// A copy of the form.
    pub fn duplicate(&self) -> (f: Self)
        ensures
            f == *self,
    {
        AccountFormState {
            visible: self.visible,
            is_new_account: self.is_new_account,
            mode: self.mode,
            pending_mode_switch: self.pending_mode_switch,
            key: self.key.clone(),
            name: self.name.clone(),
            email: self.email.clone(),
            gmail_credential_source: self.gmail_credential_source,
            gmail_client_id: self.gmail_client_id.clone(),
            gmail_client_secret: self.gmail_client_secret.clone(),
            gmail_token_ref: self.gmail_token_ref.clone(),
            gmail_authorized: self.gmail_authorized,
            imap_host: self.imap_host.clone(),
            imap_port: self.imap_port.clone(),
            imap_username: self.imap_username.clone(),
            imap_password_ref: self.imap_password_ref.clone(),
            imap_password: self.imap_password.clone(),
            imap_auth_required: self.imap_auth_required,
            smtp_host: self.smtp_host.clone(),
            smtp_port: self.smtp_port.clone(),
            smtp_username: self.smtp_username.clone(),
            smtp_password_ref: self.smtp_password_ref.clone(),
            smtp_password: self.smtp_password.clone(),
            smtp_auth_required: self.smtp_auth_required,
            active_field: self.active_field,
            editing_field: self.editing_field,
            field_cursor: self.field_cursor,
            last_result: match &self.last_result {
                Some(r) => Some(r.duplicate()),
                None => None,
            },
        }
    }

    /// Number of fields shown in the current mode.
    pub fn field_count(&self) -> (n: usize)
        ensures
            n == self.spec_field_count(),
    {
        match self.mode {
            AccountFormMode::Gmail => {
                if self.gmail_credential_source == GmailCredentialSource::Custom {
                    8
                } else {
                    6
                }
            },
            AccountFormMode::ImapSmtp => 16,
            AccountFormMode::SmtpOnly => 10,
        }
    }

    /// The text field at the focused position, if it is one.
    pub fn active_slot_exec(&self) -> (s: Option<FieldSlot>)
        ensures
            s == self.active_slot(),
    {
        let f = self.active_field;
        if f == 1 {
            return Some(FieldSlot::Key);
        } else if f == 2 {
            return Some(FieldSlot::Name);
        } else if f == 3 {
            return Some(FieldSlot::Email);
        }
        let custom = self.gmail_credential_source == GmailCredentialSource::Custom;
        match self.mode {
            AccountFormMode::Gmail => {
                if custom && f == 5 {
                    Some(FieldSlot::GmailClientId)
                } else if custom && f == 6 {
                    Some(FieldSlot::GmailClientSecret)
                } else {
                    None
                }
            },
            AccountFormMode::ImapSmtp => {
                if f == 4 {
                    Some(FieldSlot::ImapHost)
                } else if f == 5 {
                    Some(FieldSlot::ImapPort)
                } else if f == 6 {
                    Some(FieldSlot::ImapUsername)
                } else if f == 8 {
                    Some(FieldSlot::ImapPasswordRef)
                } else if f == 9 {
                    Some(FieldSlot::ImapPassword)
                } else if f == 10 {
                    Some(FieldSlot::SmtpHost)
                } else if f == 11 {
                    Some(FieldSlot::SmtpPort)
                } else if f == 12 {
                    Some(FieldSlot::SmtpUsername)
                } else if f == 14 {
                    Some(FieldSlot::SmtpPasswordRef)
                } else if f == 15 {
                    Some(FieldSlot::SmtpPassword)
                } else {
                    None
                }
            },
            AccountFormMode::SmtpOnly => {
                if f == 4 {
                    Some(FieldSlot::SmtpHost)
                } else if f == 5 {
                    Some(FieldSlot::SmtpPort)
                } else if f == 6 {
                    Some(FieldSlot::SmtpUsername)
                } else if f == 8 {
                    Some(FieldSlot::SmtpPasswordRef)
                } else if f == 9 {
                    Some(FieldSlot::SmtpPassword)
                } else {
                    None
                }
            },
        }
    }

    /// The text held by a field.
    pub fn slot_str(&self, slot: FieldSlot) -> (s: &str)
        ensures
            s@ == self.slot_text(slot),
    {
        match slot {
            FieldSlot::Key => self.key.as_str(),
            FieldSlot::Name => self.name.as_str(),
            FieldSlot::Email => self.email.as_str(),
            FieldSlot::GmailClientId => self.gmail_client_id.as_str(),
            FieldSlot::GmailClientSecret => self.gmail_client_secret.as_str(),
            FieldSlot::ImapHost => self.imap_host.as_str(),
            FieldSlot::ImapPort => self.imap_port.as_str(),
            FieldSlot::ImapUsername => self.imap_username.as_str(),
            FieldSlot::ImapPasswordRef => self.imap_password_ref.as_str(),
            FieldSlot::ImapPassword => self.imap_password.as_str(),
            FieldSlot::SmtpHost => self.smtp_host.as_str(),
            FieldSlot::SmtpPort => self.smtp_port.as_str(),
            FieldSlot::SmtpUsername => self.smtp_username.as_str(),
            FieldSlot::SmtpPasswordRef => self.smtp_password_ref.as_str(),
            FieldSlot::SmtpPassword => self.smtp_password.as_str(),
        }
    }

    /// Replaces the text of one field, leaving the rest of the form as
    /// it was.
    pub fn set_slot(&mut self, slot: FieldSlot, value: String)
        ensures
            final(self).slot_text(slot) == value@,
            final(self).same_except_slot(old(self), slot),
            final(self).field_cursor == old(self).field_cursor,
    {
        match slot {
            FieldSlot::Key => self.key = value,
            FieldSlot::Name => self.name = value,
            FieldSlot::Email => self.email = value,
            FieldSlot::GmailClientId => self.gmail_client_id = value,
            FieldSlot::GmailClientSecret => self.gmail_client_secret = value,
            FieldSlot::ImapHost => self.imap_host = value,
            FieldSlot::ImapPort => self.imap_port = value,
            FieldSlot::ImapUsername => self.imap_username = value,
            FieldSlot::ImapPasswordRef => self.imap_password_ref = value,
            FieldSlot::ImapPassword => self.imap_password = value,
            FieldSlot::SmtpHost => self.smtp_host = value,
            FieldSlot::SmtpPort => self.smtp_port = value,
            FieldSlot::SmtpUsername => self.smtp_username = value,
            FieldSlot::SmtpPasswordRef => self.smtp_password_ref = value,
            FieldSlot::SmtpPassword => self.smtp_password = value,
        }
    }
}

impl AccountOperationStep {
    /// A copy of the step.
    pub fn duplicate(&self) -> (s: Self)
        ensures
            s == *self,
    {
        AccountOperationStep { ok: self.ok, detail: self.detail.clone() }
    }
}

/// A copy of an optional step.
pub fn duplicate_step(s: &Option<AccountOperationStep>) -> (r: Option<AccountOperationStep>)
    ensures
        r == *s,
{
    match s {
        Some(step) => Some(step.duplicate()),
        None => None,
    }
}

/// A copy of an optional string.
pub fn duplicate_opt_string(s: &Option<String>) -> (r: Option<String>)
    ensures
        r == *s,
{
    match s {
        Some(v) => Some(v.clone()),
        None => None,
    }
}

impl AccountOperationResult {
    /// A copy of the result.
    pub fn duplicate(&self) -> (r: Self)
        ensures
            r == *self,
    {
        AccountOperationResult {
            ok: self.ok,
            summary: self.summary.clone(),
            save: duplicate_step(&self.save),
            auth: duplicate_step(&self.auth),
            sync: duplicate_step(&self.sync),
            send: duplicate_step(&self.send),
            device_code_url: duplicate_opt_string(&self.device_code_url),
            device_code_user_code: duplicate_opt_string(&self.device_code_user_code),
        }
    }
}

/// The text of the focused field, if the focus is on a text field.
pub fn account_form_field_value(form: &AccountFormState) -> (v: Option<&str>)
    ensures
        match form.active_text() {
            Some(t) => v is Some && v->0@ == t,
            None => v is None,
        },
{
    match form.active_slot_exec() {
        Some(slot) => Some(form.slot_str(slot)),
        None => None,
    }
}

/// Whether the focused field takes typed text.
pub fn account_form_field_is_editable(form: &AccountFormState) -> (b: bool)
    ensures
        b == form.active_slot() is Some,
{
    account_form_field_value(form).is_some()
}

/// Number of characters in the focused field, or 0 when it is not a text
/// field.
pub fn active_field_len(form: &AccountFormState) -> (n: usize)
    ensures
        n == match form.active_text() {
            Some(t) => t.len(),
            None => 0,
        },
{
    match account_form_field_value(form) {
        Some(v) => v.unicode_len(),
        None => 0,
    }
}

/// Byte offset of the character at `char_index` in `value`, or the byte
/// length of `value` when it has fewer characters.
pub fn char_to_byte_index(value: &str, char_index: usize) -> (b: usize)
    ensures
        b == (vstd::utf8::encode_utf8(value@.take(
            if char_index < value@.len() { char_index as int } else { value@.len() as int },
        )).len() as usize),
{
    let n = value.unicode_len();
    if char_index < n {
        value.substring_char(0, char_index).len()
    } else {
        assert(value@.take(n as int) =~= value@);
        value.len()
    }
}


/// `new` is `old` with `c` typed at the cursor of the focused text field
/// (at its end when the cursor is beyond it) and the cursor one further.
pub open spec fn char_inserted(old: AccountFormState, new: AccountFormState, c: char) -> bool {
    &&& match old.active_slot() {
        Some(slot) => {
            let t = old.slot_text(slot);
            let k = if old.field_cursor < t.len() { old.field_cursor as int } else { t.len() as int };
            &&& new.slot_text(slot) == t.take(k).push(c) + t.skip(k)
            &&& new.same_except_slot(&old, slot)
        },
        None => new == (AccountFormState { field_cursor: new.field_cursor, ..old }),
    }
    &&& new.field_cursor == if old.field_cursor == usize::MAX {
        usize::MAX
    } else {
        (old.field_cursor + 1) as usize
    }
}

/// `new` is `old` with the character before the cursor (backspace,
/// moving the cursor back) or at it (delete) removed from the focused
/// text field; nothing is removed when there is no such character.
pub open spec fn char_deleted(old: AccountFormState, new: AccountFormState, backspace: bool) -> bool {
    &&& match old.active_slot() {
        Some(slot) => {
            let t = old.slot_text(slot);
            let cur = old.field_cursor as int;
            let at: int = if backspace { cur - 1 } else { cur };
            &&& (0 <= at < t.len()) ==> new.slot_text(slot) == t.remove(at)
            &&& !(0 <= at < t.len()) ==> new.slot_text(slot) == t
            &&& new.same_except_slot(&old, slot)
        },
        None => new == (AccountFormState { field_cursor: new.field_cursor, ..old }),
    }
    &&& new.field_cursor == if backspace && old.field_cursor > 0 {
        (old.field_cursor - 1) as usize
    } else {
        old.field_cursor
    }
}

/// The focused field with `c` typed at the cursor, the cursor moved past
/// it. A cursor beyond the end types at the end.
pub fn insert_account_form_char(form: &mut AccountFormState, c: char)
    ensures
        char_inserted(*old(form), *final(form), c),
{
    let cursor = form.field_cursor;
    form.field_cursor = if cursor == usize::MAX { usize::MAX } else { cursor + 1 };
    match form.active_slot_exec() {
        Some(slot) => {
            let chars = chars_of(form.slot_str(slot));
            let k = if cursor < chars.len() { cursor } else { chars.len() };
            let mut out: Vec<char> = Vec::new();
            let mut i: usize = 0;
            while i < k
                invariant
                    i <= k <= chars.len(),
                    out@ == chars@.take(i as int),
                decreases k - i,
            {
                out.push(chars[i]);
                i = i + 1;
                assert(out@ =~= chars@.take(i as int));
            }
            out.push(c);
            while i < chars.len()
                invariant
                    k <= i <= chars.len(),
                    out@ == chars@.take(k as int).push(c) + chars@.subrange(k as int, i as int),
                decreases chars.len() - i,
            {
                out.push(chars[i]);
                i = i + 1;
                assert(out@ =~= chars@.take(k as int).push(c) + chars@.subrange(k as int, i as int));
            }
            assert(chars@.subrange(k as int, chars.len() as int) =~= chars@.skip(k as int));
            let value = string_of(&out);
            form.set_slot(slot, value);
        },
        None => {},
    }
}

/// The focused field with one character removed: the one before the
/// cursor (backspace, moving the cursor back) or the one at it (delete).
/// Nothing is removed when there is no such character.
pub fn delete_account_form_char(form: &mut AccountFormState, backspace: bool)
    ensures
        char_deleted(*old(form), *final(form), backspace),
{
    let cursor = form.field_cursor;
    if backspace && cursor > 0 {
        form.field_cursor = cursor - 1;
    }
    match form.active_slot_exec() {
        Some(slot) => {
            let chars = chars_of(form.slot_str(slot));
            let remove_at: Option<usize> = if backspace {
                if cursor == 0 || cursor - 1 >= chars.len() {
                    None
                } else {
                    Some(cursor - 1)
                }
            } else {
                if cursor >= chars.len() {
                    None
                } else {
                    Some(cursor)
                }
            };
            match remove_at {
                Some(at) => {
                    let mut out: Vec<char> = Vec::new();
                    let mut i: usize = 0;
                    while i < chars.len()
                        invariant
                            at < chars.len(),
                            i <= chars.len(),
                            out@ == (if i <= at { chars@.take(i as int) } else { chars@.take(
                                i as int,
                            ).remove(at as int) }),
                        decreases chars.len() - i,
                    {
                        if i != at {
                            out.push(chars[i]);
                        }
                        i = i + 1;
                        assert(out@ =~= (if i <= at { chars@.take(i as int) } else { chars@.take(
                            i as int,
                        ).remove(at as int) }));
                    }
                    assert(chars@.take(chars.len() as int) =~= chars@);
                    let value = string_of(&out);
                    form.set_slot(slot, value);
                },
                None => {},
            }
        },
        None => {},
    }
}

// ---------------------------------------------------------------------
// Validation
// ---------------------------------------------------------------------

/// One message when `cond` holds, none otherwise.
pub open spec fn issue(cond: bool, msg: Seq<char>) -> Seq<Seq<char>> {
    if cond {
        seq![msg]
    } else {
        seq![]
    }
}

/// One field number when `cond` holds, none otherwise.
pub open spec fn flag(cond: bool, field: nat) -> Seq<nat> {
    if cond {
        seq![field]
    } else {
        seq![]
    }
}

/// A port field that is filled in but does not hold a port number.
pub open spec fn port_invalid(port: Seq<char>) -> bool {
    !is_blank(port) && parse_unsigned(trim(port), u16::MAX as nat) is None
}

impl AccountFormState {
    /// Problems with the fields every mode has, in the order they are
    /// reported.
    pub open spec fn save_issues(&self) -> Seq<Seq<char>> {
        issue(is_blank(self.key@), "Account key is required."@) + issue(
            is_blank(self.email@),
            "Email is required."@,
        )
    }

    pub open spec fn save_fields(&self) -> Seq<nat> {
        flag(is_blank(self.key@), 1) + flag(is_blank(self.email@), 3)
    }

    /// Whether the Gmail client credentials are checked.
    pub open spec fn checks_gmail_client(&self) -> bool {
        self.mode == AccountFormMode::Gmail && self.gmail_credential_source
            == GmailCredentialSource::Custom
    }

    /// Problems with a custom Gmail client.
    pub open spec fn auth_issues(&self) -> Seq<Seq<char>> {
        if self.checks_gmail_client() {
            issue(is_blank(self.gmail_client_id@), "Client ID is required for custom Gmail auth."@)
                + issue(
                is_blank(self.gmail_client_secret@),
                "Client Secret is required for custom Gmail auth."@,
            )
        } else {
            seq![]
        }
    }

    pub open spec fn auth_fields(&self) -> Seq<nat> {
        if self.checks_gmail_client() {
            flag(is_blank(self.gmail_client_id@), 5) + flag(is_blank(self.gmail_client_secret@), 6)
        } else {
            seq![]
        }
    }

    /// Problems with the IMAP settings (IMAP/SMTP mode only).
    pub open spec fn sync_issues(&self) -> Seq<Seq<char>> {
        if self.mode == AccountFormMode::ImapSmtp {
            issue(is_blank(self.imap_host@), "IMAP host is required."@) + issue(
                is_blank(self.imap_port@),
                "IMAP port is required."@,
            ) + issue(port_invalid(self.imap_port@), "IMAP port must be a valid number."@) + issue(
                self.imap_auth_required && is_blank(self.email@) && is_blank(self.imap_username@),
                "IMAP auth is enabled, so Email or IMAP user is required."@,
            ) + issue(
                self.imap_auth_required && is_blank(self.imap_password_ref@)
                    && self.imap_password@.len() == 0,
                "IMAP auth is enabled, so IMAP password or IMAP pass ref is required."@,
            )
        } else {
            seq![]
        }
    }

    pub open spec fn sync_fields(&self) -> Seq<nat> {
        if self.mode == AccountFormMode::ImapSmtp {
            flag(is_blank(self.imap_host@), 4) + flag(is_blank(self.imap_port@), 5) + flag(
                port_invalid(self.imap_port@),
                5,
            ) + flag(
                self.imap_auth_required && is_blank(self.email@) && is_blank(self.imap_username@),
                3,
            ) + flag(
                self.imap_auth_required && is_blank(self.imap_password_ref@)
                    && self.imap_password@.len() == 0,
                9,
            )
        } else {
            seq![]
        }
    }

    /// Whether the SMTP settings are checked.
    pub open spec fn checks_smtp(&self) -> bool {
        self.mode == AccountFormMode::ImapSmtp || self.mode == AccountFormMode::SmtpOnly
    }

    /// Problems with the SMTP settings.
    pub open spec fn send_issues(&self) -> Seq<Seq<char>> {
        if self.checks_smtp() {
            issue(is_blank(self.smtp_host@), "SMTP host is required."@) + issue(
                is_blank(self.smtp_port@),
                "SMTP port is required."@,
            ) + issue(port_invalid(self.smtp_port@), "SMTP port must be a valid number."@) + issue(
                self.smtp_auth_required && is_blank(self.email@) && is_blank(self.smtp_username@),
                "SMTP auth is enabled, so Email or SMTP user is required."@,
            ) + issue(
                self.smtp_auth_required && is_blank(self.smtp_password_ref@)
                    && self.smtp_password@.len() == 0,
                "SMTP auth is enabled, so SMTP password or SMTP pass ref is required."@,
            )
        } else {
            seq![]
        }
    }

    /// Field numbers of the SMTP host, port and password in this mode.
    pub open spec fn smtp_field(&self, which: nat) -> nat {
        if self.mode == AccountFormMode::ImapSmtp {
            if which == 0 {
                10
            } else if which == 1 {
                11
            } else {
                15
            }
        } else {
            if which == 0 {
                4
            } else if which == 1 {
                5
            } else {
                9
            }
        }
    }

    pub open spec fn send_fields(&self) -> Seq<nat> {
        if self.checks_smtp() {
            flag(is_blank(self.smtp_host@), self.smtp_field(0)) + flag(
                is_blank(self.smtp_port@),
                self.smtp_field(1),
            ) + flag(port_invalid(self.smtp_port@), self.smtp_field(1)) + flag(
                self.smtp_auth_required && is_blank(self.email@) && is_blank(self.smtp_username@),
                3,
            ) + flag(
                self.smtp_auth_required && is_blank(self.smtp_password_ref@)
                    && self.smtp_password@.len() == 0,
                self.smtp_field(2),
            )
        } else {
            seq![]
        }
    }

    /// The fields with a problem, in the order they are checked.
    pub open spec fn invalid_fields(&self) -> Seq<nat> {
        self.save_fields() + self.auth_fields() + self.sync_fields() + self.send_fields()
    }
}

/// The step reporting a list of problems: none when the list is empty,
/// otherwise a failed step whose detail is the problems joined by spaces.
pub open spec fn step_matches(step: Option<AccountOperationStep>, issues: Seq<Seq<char>>) -> bool {
    &&& (step is Some <==> issues.len() > 0)
    &&& (step matches Some(st) ==> !st.ok && st.detail@ == join(issues, " "@))
}

/// Appends `msg` to `issues` and remembers `field` as the first problem
/// when none was recorded yet.
fn note_issue(
    issues: &mut Vec<String>,
    first: &mut Option<usize>,
    msg: &str,
    field: usize,
)
    ensures
        final(issues)@.map_values(|p: String| p@) == old(issues)@.map_values(|p: String| p@).push(
            msg@,
        ),
        *final(first) == (if *old(first) is Some { *old(first) } else { Some(field) }),
{
    let ghost before = issues@.map_values(|p: String| p@);
    issues.push(String::from_str(msg));
    assert(issues@.map_values(|p: String| p@) =~= before.push(msg@));
    if first.is_none() {
        *first = Some(field);
    }
}

/// The step for a list of problems.
fn step_for(issues: &Vec<String>) -> (s: Option<AccountOperationStep>)
    ensures
        step_matches(s, issues@.map_values(|p: String| p@)),
{
    if issues.len() == 0 {
        None
    } else {
        Some(AccountOperationStep { ok: false, detail: join_strings(issues, " ") })
    }
}




/// The first problem field once `fields` have been checked after a
/// first problem `first` (if any) was found.
pub open spec fn first_after(first: Option<usize>, fields: Seq<nat>) -> Option<usize> {
    if first is Some {
        first
    } else if fields.len() > 0 {
        Some(fields[0] as usize)
    } else {
        None
    }
}

proof fn lemma_first_after_concat(first: Option<usize>, a: Seq<nat>, b: Seq<nat>)
    ensures
        first_after(first_after(first, a), b) == first_after(first, a + b),
{
    if a.len() > 0 {
        assert((a + b)[0] == a[0]);
    } else {
        assert(a + b =~= b);
    }
}

impl AccountFormState {
    fn note_save_issues(&self, msgs: &mut Vec<String>, first: &mut Option<usize>)
        requires
            old(msgs)@.len() == 0,
        ensures
            final(msgs)@.map_values(|p: String| p@) == self.save_issues(),
            *final(first) == first_after(*old(first), self.save_fields()),
    {
        let ghost mut fields: Seq<nat> = seq![];
        if blank(&self.key) {
            note_issue(msgs, first, "Account key is required.", 1);
            proof { fields = fields.push(1); }
        }
        if blank(&self.email) {
            note_issue(msgs, first, "Email is required.", 3);
            proof { fields = fields.push(3); }
        }
        assert(msgs@.map_values(|p: String| p@) =~= self.save_issues());
        assert(fields =~= self.save_fields());
    }

    fn note_auth_issues(&self, msgs: &mut Vec<String>, first: &mut Option<usize>)
        requires
            old(msgs)@.len() == 0,
        ensures
            final(msgs)@.map_values(|p: String| p@) == self.auth_issues(),
            *final(first) == first_after(*old(first), self.auth_fields()),
    {
        let ghost mut fields: Seq<nat> = seq![];
        if self.mode == AccountFormMode::Gmail && self.gmail_credential_source
            == GmailCredentialSource::Custom {
            if blank(&self.gmail_client_id) {
                note_issue(msgs, first, "Client ID is required for custom Gmail auth.", 5);
                proof { fields = fields.push(5); }
            }
            if blank(&self.gmail_client_secret) {
                note_issue(msgs, first, "Client Secret is required for custom Gmail auth.", 6);
                proof { fields = fields.push(6); }
            }
        }
        assert(msgs@.map_values(|p: String| p@) =~= self.auth_issues());
        assert(fields =~= self.auth_fields());
    }

    fn note_sync_issues(&self, msgs: &mut Vec<String>, first: &mut Option<usize>)
        requires
            old(msgs)@.len() == 0,
        ensures
            final(msgs)@.map_values(|p: String| p@) == self.sync_issues(),
            *final(first) == first_after(*old(first), self.sync_fields()),
    {
        let ghost mut fields: Seq<nat> = seq![];
        if self.mode == AccountFormMode::ImapSmtp {
            if blank(&self.imap_host) {
                note_issue(msgs, first, "IMAP host is required.", 4);
                proof { fields = fields.push(4); }
            }
            if blank(&self.imap_port) {
                note_issue(msgs, first, "IMAP port is required.", 5);
                proof { fields = fields.push(5); }
            } else if parse_u16(trim_str(&self.imap_port).as_str()).is_none() {
                note_issue(msgs, first, "IMAP port must be a valid number.", 5);
                proof { fields = fields.push(5); }
            }
            if self.imap_auth_required {
                if blank(&self.email) && blank(&self.imap_username) {
                    note_issue(
                        msgs,
                        first,
                        "IMAP auth is enabled, so Email or IMAP user is required.",
                        3,
                    );
                    proof { fields = fields.push(3); }
                }
                if blank(&self.imap_password_ref) && self.imap_password.as_str().is_empty() {
                    note_issue(
                        msgs,
                        first,
                        "IMAP auth is enabled, so IMAP password or IMAP pass ref is required.",
                        9,
                    );
                    proof { fields = fields.push(9); }
                }
            }
        }
        assert(msgs@.map_values(|p: String| p@) =~= self.sync_issues());
        assert(fields =~= self.sync_fields());
    }

    fn note_send_issues(&self, msgs: &mut Vec<String>, first: &mut Option<usize>)
        requires
            old(msgs)@.len() == 0,
        ensures
            final(msgs)@.map_values(|p: String| p@) == self.send_issues(),
            *final(first) == first_after(*old(first), self.send_fields()),
    {
        let ghost mut fields: Seq<nat> = seq![];
        if self.mode != AccountFormMode::Gmail {
            let (host_f, port_f, pass_f): (usize, usize, usize) = if self.mode
                == AccountFormMode::ImapSmtp {
                (10, 11, 15)
            } else {
                (4, 5, 9)
            };
            if blank(&self.smtp_host) {
                note_issue(msgs, first, "SMTP host is required.", host_f);
                proof { fields = fields.push(host_f as nat); }
            }
            if blank(&self.smtp_port) {
                note_issue(msgs, first, "SMTP port is required.", port_f);
                proof { fields = fields.push(port_f as nat); }
            } else if parse_u16(trim_str(&self.smtp_port).as_str()).is_none() {
                note_issue(msgs, first, "SMTP port must be a valid number.", port_f);
                proof { fields = fields.push(port_f as nat); }
            }
            if self.smtp_auth_required {
                if blank(&self.email) && blank(&self.smtp_username) {
                    note_issue(
                        msgs,
                        first,
                        "SMTP auth is enabled, so Email or SMTP user is required.",
                        3,
                    );
                    proof { fields = fields.push(3); }
                }
                if blank(&self.smtp_password_ref) && self.smtp_password.as_str().is_empty() {
                    note_issue(
                        msgs,
                        first,
                        "SMTP auth is enabled, so SMTP password or SMTP pass ref is required.",
                        pass_f,
                    );
                    proof { fields = fields.push(pass_f as nat); }
                }
            }
        }
        assert(msgs@.map_values(|p: String| p@) =~= self.send_issues());
        assert(fields =~= self.send_fields());
    }
}

/// Summary of a form that fails validation.
pub open spec fn form_problems_summary() -> Seq<char> {
    "Account form has problems. Fix the listed fields and try again."@
}

impl AccountFormState {
    #[verifier::spinoff_prover]
    #[verifier::rlimit(50)]
    proof fn lemma_validation_shape(&self)
        ensures
            first_after(
                first_after(
                    first_after(first_after(None, self.save_fields()), self.auth_fields()),
                    self.sync_fields(),
                ),
                self.send_fields(),
            ) == first_after(None, self.invalid_fields()),
            self.save_issues().len() == self.save_fields().len(),
            self.auth_issues().len() == self.auth_fields().len(),
            self.sync_issues().len() == self.sync_fields().len(),
            self.send_issues().len() == self.send_fields().len(),
            self.invalid_fields().len() == self.save_fields().len() + self.auth_fields().len()
                + self.sync_fields().len() + self.send_fields().len(),
    {
        let (a, b, c, d) = (
            self.save_fields(),
            self.auth_fields(),
            self.sync_fields(),
            self.send_fields(),
        );
        lemma_first_after_concat(None, a, b);
        lemma_first_after_concat(None, a + b, c);
        lemma_first_after_concat(None, a + b + c, d);
    }

    /// The problems that keep the form from being saved or tested, as an
    /// operation result with one failed step per part of the form, with
    /// the number of the first field at fault; `None` when there are
    /// none.
    pub fn validation_failure(&self) -> (r: Option<(AccountOperationResult, usize)>)
        ensures
            r is None <==> self.invalid_fields().len() == 0,
            r matches Some((res, first)) ==> {
                &&& first == self.invalid_fields()[0]
                &&& !res.ok
                &&& res.summary@ == form_problems_summary()
                &&& step_matches(res.save, self.save_issues())
                &&& step_matches(res.auth, self.auth_issues())
                &&& step_matches(res.sync, self.sync_issues())
                &&& step_matches(res.send, self.send_issues())
                &&& res.device_code_url is None
                &&& res.device_code_user_code is None
            },
    {
        let mut first: Option<usize> = None;
        let mut save: Vec<String> = Vec::new();
        let mut auth_msgs: Vec<String> = Vec::new();
        let mut sync_msgs: Vec<String> = Vec::new();
        let mut send_msgs: Vec<String> = Vec::new();
        self.note_save_issues(&mut save, &mut first);
        self.note_auth_issues(&mut auth_msgs, &mut first);
        self.note_sync_issues(&mut sync_msgs, &mut first);
        self.note_send_issues(&mut send_msgs, &mut first);
        proof {
            self.lemma_validation_shape();
        }
        let save_step = step_for(&save);
        let auth_step = step_for(&auth_msgs);
        let sync_step = step_for(&sync_msgs);
        let send_step = step_for(&send_msgs);
        if save_step.is_none() && auth_step.is_none() && sync_step.is_none() && send_step.is_none() {
            return None;
        }
        let first_field = match first {
            Some(f) => f,
            None => 0,
        };
        Some(
            (
                AccountOperationResult {
                    ok: false,
                    summary: String::from_str(
                        "Account form has problems. Fix the listed fields and try again.",
                    ),
                    save: save_step,
                    auth: auth_step,
                    sync: sync_step,
                    send: send_step,
                    device_code_url: None,
                    device_code_user_code: None,
                },
                first_field,
            ),
        )
    }
}


// ---------------------------------------------------------------------
// The configuration a form describes
// ---------------------------------------------------------------------

/// The key the form saves under: the typed key, trimmed.
pub open spec fn form_key(f: AccountFormState) -> Seq<char> {
    trim(f.key@)
}

/// A secret reference derived from the account key: `mxr/<key>-<kind>`.
pub open spec fn key_ref(key: Seq<char>, kind: Seq<char>) -> Seq<char> {
    "mxr/"@ + key + kind
}

/// A username: the typed one, or the email when authentication is on and
/// none was typed.
pub open spec fn effective_username(f: AccountFormState, auth: bool, user: Seq<char>) -> Seq<char> {
    if auth && is_blank(user) {
        trim(f.email@)
    } else {
        trim(user)
    }
}

/// A password reference: the typed one, or one derived from the key when
/// authentication is on and none was typed (empty without a key).
pub open spec fn effective_password_ref(
    f: AccountFormState,
    auth: bool,
    typed: Seq<char>,
    kind: Seq<char>,
) -> Seq<char> {
    if auth && is_blank(typed) {
        if form_key(f).len() == 0 {
            Seq::empty()
        } else {
            key_ref(form_key(f), kind)
        }
    } else {
        trim(typed)
    }
}

/// A port number, or `default` when the text is not one.
pub open spec fn port_or(text: Seq<char>, default: u16) -> u16 {
    match parse_unsigned(text, u16::MAX as nat) {
        Some(n) => n as u16,
        None => default,
    }
}

/// A password as configured: none when nothing was typed.
pub open spec fn optional_text(o: Option<String>, typed: Seq<char>) -> bool {
    if typed.len() == 0 {
        o is None
    } else {
        o matches Some(v) && v@ == typed
    }
}

/// What `config` says of the sync side of the form `f`.
pub open spec fn sync_matches(f: AccountFormState, sync: Option<AccountSyncConfig>) -> bool {
    match f.mode {
        AccountFormMode::Gmail => sync matches Some(
            AccountSyncConfig::Gmail { credential_source, client_id, client_secret, token_ref },
        ) && credential_source == f.gmail_credential_source && client_id@ == trim(
            f.gmail_client_id@,
        ) && (if is_blank(f.gmail_client_secret@) {
            client_secret is None
        } else {
            client_secret matches Some(cs) && cs@ == f.gmail_client_secret@
        }) && token_ref@ == (if is_blank(f.gmail_token_ref@) {
            key_ref(form_key(f), "-gmail"@)
        } else {
            trim(f.gmail_token_ref@)
        }),
        AccountFormMode::ImapSmtp => sync matches Some(
            AccountSyncConfig::Imap {
                host,
                port,
                username,
                password_ref,
                password,
                auth_required,
                use_tls,
            },
        ) && host@ == trim(f.imap_host@) && port == port_or(f.imap_port@, 993) && username@
            == effective_username(f, f.imap_auth_required, f.imap_username@) && password_ref@
            == effective_password_ref(f, f.imap_auth_required, f.imap_password_ref@, "-imap"@)
            && optional_text(password, f.imap_password@) && auth_required == f.imap_auth_required
            && use_tls,
        AccountFormMode::SmtpOnly => sync is None,
    }
}

/// What `config` says of the send side of the form `f`.
pub open spec fn send_matches(f: AccountFormState, send: Option<AccountSendConfig>) -> bool {
    match f.mode {
        AccountFormMode::Gmail => send == Some(AccountSendConfig::Gmail),
        _ => send matches Some(
            AccountSendConfig::Smtp {
                host,
                port,
                username,
                password_ref,
                password,
                auth_required,
                use_tls,
            },
        ) && host@ == trim(f.smtp_host@) && port == port_or(f.smtp_port@, 587) && username@
            == effective_username(f, f.smtp_auth_required, f.smtp_username@) && password_ref@
            == effective_password_ref(f, f.smtp_auth_required, f.smtp_password_ref@, "-smtp"@)
            && optional_text(password, f.smtp_password@) && auth_required == f.smtp_auth_required
            && use_tls,
    }
}

impl AccountFormState {
    fn username_for(&self, auth: bool, user: &String) -> (r: String)
        ensures
            r@ == effective_username(*self, auth, user@),
    {
        if auth && blank(user) {
            trim_str(&self.email)
        } else {
            trim_str(user)
        }
    }

    fn password_ref_for(&self, key: &String, auth: bool, typed: &String, kind: &str) -> (r: String)
        requires
            key@ == form_key(*self),
        ensures
            r@ == effective_password_ref(*self, auth, typed@, kind@),
    {
        if auth && blank(typed) {
            if key.as_str().is_empty() {
                String::new()
            } else {
                concat3("mxr/", key.as_str(), kind)
            }
        } else {
            trim_str(typed)
        }
    }

    /// The account configuration the form describes. Blank names fall
    /// back to the key, blank usernames to the email and blank secret
    /// references to ones derived from the key; a port that is not a
    /// number becomes the standard port.
    pub fn data(&self, is_default: bool) -> (c: AccountConfig)
        ensures
            c.key@ == form_key(*self),
            c.name@ == (if is_blank(self.name@) { form_key(*self) } else { trim(self.name@) }),
            c.email@ == trim(self.email@),
            sync_matches(*self, c.sync),
            send_matches(*self, c.send),
            c.is_default == is_default,
            c.enabled,
    {
        let key = trim_str(&self.key);
        let name = if blank(&self.name) {
            key.clone()
        } else {
            trim_str(&self.name)
        };
        let email = trim_str(&self.email);
        let sync = match self.mode {
            AccountFormMode::Gmail => {
                let token_ref = if blank(&self.gmail_token_ref) {
                    concat3("mxr/", key.as_str(), "-gmail")
                } else {
                    trim_str(&self.gmail_token_ref)
                };
                Some(
                    AccountSyncConfig::Gmail {
                        credential_source: self.gmail_credential_source,
                        client_id: trim_str(&self.gmail_client_id),
                        client_secret: if blank(&self.gmail_client_secret) {
                            None
                        } else {
                            Some(self.gmail_client_secret.clone())
                        },
                        token_ref,
                    },
                )
            },
            AccountFormMode::ImapSmtp => {
                let port = match parse_u16(self.imap_port.as_str()) {
                    Some(p) => p,
                    None => 993,
                };
                Some(
                    AccountSyncConfig::Imap {
                        host: trim_str(&self.imap_host),
                        port,
                        username: self.username_for(self.imap_auth_required, &self.imap_username),
                        password_ref: self.password_ref_for(
                            &key,
                            self.imap_auth_required,
                            &self.imap_password_ref,
                            "-imap",
                        ),
                        password: if self.imap_password.as_str().is_empty() {
                            None
                        } else {
                            Some(self.imap_password.clone())
                        },
                        auth_required: self.imap_auth_required,
                        use_tls: true,
                    },
                )
            },
            AccountFormMode::SmtpOnly => None,
        };
        let send = match self.mode {
            AccountFormMode::Gmail => Some(AccountSendConfig::Gmail),
            _ => {
                let port = match parse_u16(self.smtp_port.as_str()) {
                    Some(p) => p,
                    None => 587,
                };
                Some(
                    AccountSendConfig::Smtp {
                        host: trim_str(&self.smtp_host),
                        port,
                        username: self.username_for(self.smtp_auth_required, &self.smtp_username),
                        password_ref: self.password_ref_for(
                            &key,
                            self.smtp_auth_required,
                            &self.smtp_password_ref,
                            "-smtp",
                        ),
                        password: if self.smtp_password.as_str().is_empty() {
                            None
                        } else {
                            Some(self.smtp_password.clone())
                        },
                        auth_required: self.smtp_auth_required,
                        use_tls: true,
                    },
                )
            },
        };
        AccountConfig { key, name, email, sync, send, is_default, enabled: true }
    }
}


// ---------------------------------------------------------------------
// Modes and switches
// ---------------------------------------------------------------------

/// The mode after `m` in the cycle Gmail, IMAP/SMTP, SMTP only (or
/// before it when going backwards).
pub open spec fn mode_after(m: AccountFormMode, forward: bool) -> AccountFormMode {
    match (m, forward) {
        (AccountFormMode::Gmail, true) => AccountFormMode::ImapSmtp,
        (AccountFormMode::ImapSmtp, true) => AccountFormMode::SmtpOnly,
        (AccountFormMode::SmtpOnly, true) => AccountFormMode::Gmail,
        (AccountFormMode::Gmail, false) => AccountFormMode::SmtpOnly,
        (AccountFormMode::ImapSmtp, false) => AccountFormMode::Gmail,
        (AccountFormMode::SmtpOnly, false) => AccountFormMode::ImapSmtp,
    }
}

/// The other Gmail credential source.
pub open spec fn other_source(s: GmailCredentialSource) -> GmailCredentialSource {
    match s {
        GmailCredentialSource::Bundled => GmailCredentialSource::Custom,
        GmailCredentialSource::Custom => GmailCredentialSource::Bundled,
    }
}

/// The switch at a field position in a mode, if any.
pub open spec fn toggle_at(mode: AccountFormMode, field: int) -> Option<AccountFormToggleField> {
    match mode {
        AccountFormMode::Gmail => if field == 4 {
            Some(AccountFormToggleField::GmailCredentialSource)
        } else {
            None
        },
        AccountFormMode::ImapSmtp => if field == 7 {
            Some(AccountFormToggleField::ImapAuthRequired)
        } else if field == 13 {
            Some(AccountFormToggleField::SmtpAuthRequired)
        } else {
            None
        },
        AccountFormMode::SmtpOnly => if field == 7 {
            Some(AccountFormToggleField::SmtpAuthRequired)
        } else {
            None
        },
    }
}

/// The Gmail token reference derived from a key: empty without a key.
pub open spec fn gmail_token_ref_for(key: Seq<char>) -> Seq<char> {
    if trim(key).len() == 0 {
        Seq::empty()
    } else {
        key_ref(trim(key), "-gmail"@)
    }
}

/// Whether anything has been typed into the form.
pub open spec fn has_input(f: AccountFormState) -> bool {
    !is_blank(f.key@) || !is_blank(f.name@) || !is_blank(f.email@) || !is_blank(
        f.gmail_client_id@,
    ) || !is_blank(f.gmail_client_secret@) || !is_blank(f.imap_host@) || !is_blank(
        f.imap_username@,
    ) || !is_blank(f.imap_password_ref@) || !is_blank(f.imap_password@) || !is_blank(
        f.smtp_host@,
    ) || !is_blank(f.smtp_username@) || !is_blank(f.smtp_password_ref@) || !is_blank(
        f.smtp_password@,
    )
}

/// `new` is `old` with its derived Gmail token reference brought up to
/// date with the key (in Gmail mode; other modes keep it).
pub open spec fn refreshed(old: AccountFormState, new: AccountFormState) -> bool {
    &&& new == (AccountFormState { gmail_token_ref: new.gmail_token_ref, ..old })
    &&& new.gmail_token_ref@ == (if old.mode == AccountFormMode::Gmail {
        gmail_token_ref_for(old.key@)
    } else {
        old.gmail_token_ref@
    })
}

/// `new` is `old` switched to `mode`: no switch pending, the focus kept
/// within the fields of the new mode, editing stopped, the cursor at the
/// start, and the derived fields refreshed.
pub open spec fn mode_applied(old: AccountFormState, new: AccountFormState, mode: AccountFormMode) -> bool {
    let count = field_count_of(mode, old.gmail_credential_source);
    let mid = AccountFormState {
        mode: mode,
        pending_mode_switch: None,
        active_field: if (old.active_field as int) < count - 1 { old.active_field } else { (count - 1) as usize },
        editing_field: false,
        field_cursor: 0,
        ..old
    };
    refreshed(mid, new)
}

/// `new` is `old` after asking for the next (or previous) mode: with
/// something typed the switch waits for confirmation, otherwise it
/// happens at once.
pub open spec fn mode_requested(old: AccountFormState, new: AccountFormState, forward: bool) -> bool {
    let next = mode_after(old.mode, forward);
    if has_input(old) {
        new == (AccountFormState { pending_mode_switch: Some(next), ..old })
    } else {
        mode_applied(old, new, next)
    }
}

/// The other Gmail credential source (the cycle has two members, so both
/// directions give the same).
pub fn next_gmail_credential_source(current: GmailCredentialSource, forward: bool) -> (s: GmailCredentialSource)
    ensures
        s == other_source(current),
{
    match (current, forward) {
        (GmailCredentialSource::Bundled, true) => GmailCredentialSource::Custom,
        (GmailCredentialSource::Custom, true) => GmailCredentialSource::Bundled,
        (GmailCredentialSource::Bundled, false) => GmailCredentialSource::Custom,
        (GmailCredentialSource::Custom, false) => GmailCredentialSource::Bundled,
    }
}

impl AccountFormState {
    /// The mode after (or before) the current one.
    pub fn next_mode(&self, forward: bool) -> (m: AccountFormMode)
        ensures
            m == mode_after(self.mode, forward),
    {
        match (self.mode, forward) {
            (AccountFormMode::Gmail, true) => AccountFormMode::ImapSmtp,
            (AccountFormMode::ImapSmtp, true) => AccountFormMode::SmtpOnly,
            (AccountFormMode::SmtpOnly, true) => AccountFormMode::Gmail,
            (AccountFormMode::Gmail, false) => AccountFormMode::SmtpOnly,
            (AccountFormMode::ImapSmtp, false) => AccountFormMode::Gmail,
            (AccountFormMode::SmtpOnly, false) => AccountFormMode::ImapSmtp,
        }
    }

    /// Whether anything has been typed into the form.
    pub fn has_meaningful_input(&self) -> (b: bool)
        ensures
            b == has_input(*self),
    {
        !blank(&self.key) || !blank(&self.name) || !blank(&self.email) || !blank(
            &self.gmail_client_id,
        ) || !blank(&self.gmail_client_secret) || !blank(&self.imap_host) || !blank(
            &self.imap_username,
        ) || !blank(&self.imap_password_ref) || !blank(&self.imap_password) || !blank(
            &self.smtp_host,
        ) || !blank(&self.smtp_username) || !blank(&self.smtp_password_ref) || !blank(
            &self.smtp_password,
        )
    }

    /// The switch under the focus, if the focused field is one.
    pub fn current_toggle_field(&self) -> (t: Option<AccountFormToggleField>)
        ensures
            t == toggle_at(self.mode, self.active_field as int),
    {
        match (self.mode, self.active_field) {
            (AccountFormMode::Gmail, 4) => Some(AccountFormToggleField::GmailCredentialSource),
            (AccountFormMode::ImapSmtp, 7) => Some(AccountFormToggleField::ImapAuthRequired),
            (AccountFormMode::ImapSmtp, 13) => Some(AccountFormToggleField::SmtpAuthRequired),
            (AccountFormMode::SmtpOnly, 7) => Some(AccountFormToggleField::SmtpAuthRequired),
            _ => None,
        }
    }

    /// Flips the switch under the focus; false when the focus is not on a
    /// switch. Changing the Gmail credential source keeps the focus
    /// within the fields the form then has.
    pub fn toggle_current_field(&mut self, forward: bool) -> (changed: bool)
        ensures
            changed == toggle_at(old(self).mode, old(self).active_field as int) is Some,
            match toggle_at(old(self).mode, old(self).active_field as int) {
                Some(AccountFormToggleField::GmailCredentialSource) => {
                    let src = other_source(old(self).gmail_credential_source);
                    let count = field_count_of(old(self).mode, src);
                    *final(self) == (AccountFormState {
                        gmail_credential_source: src,
                        active_field: if (old(self).active_field as int) < count - 1 {
                            old(self).active_field
                        } else {
                            (count - 1) as usize
                        },
                        ..*old(self)
                    })
                },
                Some(AccountFormToggleField::ImapAuthRequired) => *final(self) == (AccountFormState {
                    imap_auth_required: !old(self).imap_auth_required,
                    ..*old(self)
                }),
                Some(AccountFormToggleField::SmtpAuthRequired) => *final(self) == (AccountFormState {
                    smtp_auth_required: !old(self).smtp_auth_required,
                    ..*old(self)
                }),
                None => *final(self) == *old(self),
            },
    {
        match self.current_toggle_field() {
            Some(AccountFormToggleField::GmailCredentialSource) => {
                self.gmail_credential_source = next_gmail_credential_source(
                    self.gmail_credential_source,
                    forward,
                );
                let last = self.field_count() - 1;
                if self.active_field > last {
                    self.active_field = last;
                }
                true
            },
            Some(AccountFormToggleField::ImapAuthRequired) => {
                self.imap_auth_required = !self.imap_auth_required;
                true
            },
            Some(AccountFormToggleField::SmtpAuthRequired) => {
                self.smtp_auth_required = !self.smtp_auth_required;
                true
            },
            None => false,
        }
    }

    /// In Gmail mode, derives the token reference from the key.
    pub fn refresh_derived_fields(&mut self)
        ensures
            refreshed(*old(self), *final(self)),
    {
        if self.mode == AccountFormMode::Gmail {
            let key = trim_str(&self.key);
            let token_ref = if key.as_str().is_empty() {
                String::new()
            } else {
                concat3("mxr/", key.as_str(), "-gmail")
            };
            self.gmail_token_ref = token_ref;
        }
    }

    /// Switches the form to `mode`.
    pub fn apply_mode(&mut self, mode: AccountFormMode)
        ensures
            mode_applied(*old(self), *final(self), mode),
    {
        self.mode = mode;
        self.pending_mode_switch = None;
        let last = self.field_count() - 1;
        if self.active_field > last {
            self.active_field = last;
        }
        self.editing_field = false;
        self.field_cursor = 0;
        self.refresh_derived_fields();
    }

    /// Asks for the next (or previous) mode: with something typed the
    /// switch waits for confirmation, otherwise it happens at once.
    pub fn request_mode_change(&mut self, forward: bool)
        ensures
            mode_requested(*old(self), *final(self), forward),
    {
        let next = self.next_mode(forward);
        if next == self.mode {
            return;
        }
        if self.has_meaningful_input() {
            self.pending_mode_switch = Some(next);
        } else {
            self.apply_mode(next);
        }
    }
}


// ---------------------------------------------------------------------
// Operation results
// ---------------------------------------------------------------------

/// Whether a result carries any per-step detail.
pub open spec fn has_details(r: Option<AccountOperationResult>) -> bool {
    r matches Some(res) && (res.save is Some || res.auth is Some || res.sync is Some
        || res.send is Some)
}

/// Whether a result has step details worth a modal of their own.
pub fn account_result_has_details(result: Option<&AccountOperationResult>) -> (b: bool)
    ensures
        b == has_details(match result {
            Some(r) => Some(*r),
            None => None,
        }),
{
    match result {
        Some(r) => r.save.is_some() || r.auth.is_some() || r.sync.is_some() || r.send.is_some(),
        None => false,
    }
}

/// The title of the result modal.
pub open spec fn result_title(summary: Seq<char>) -> Seq<char> {
    if contains(summary, "test failed"@) {
        "Account Test Failed"@
    } else if contains(summary, "test passed"@) {
        "Account Test Result"@
    } else if starts_with(summary, "Account form has problems."@) {
        "Account Form Problems"@
    } else {
        "Account Setup Details"@
    }
}

/// The title of the modal that shows an operation result.
pub fn account_result_modal_title(result: &AccountOperationResult) -> (t: String)
    ensures
        t@ == result_title(result.summary@),
{
    if contains_str(result.summary.as_str(), "test failed") {
        String::from_str("Account Test Failed")
    } else if contains_str(result.summary.as_str(), "test passed") {
        String::from_str("Account Test Result")
    } else if starts_with_str(result.summary.as_str(), "Account form has problems.") {
        String::from_str("Account Form Problems")
    } else {
        String::from_str("Account Setup Details")
    }
}

/// The hint shown under a failed step, if its detail looks like a
/// server compatibility problem during sync.
pub open spec fn result_hint(label: Seq<char>, detail: Seq<char>) -> Option<Seq<char>> {
    let d = ascii_lowercase(detail);
    if label == "Sync"@ && (contains(d, "namespace response"@) || contains(d, "could not parse"@)
        || contains(d, "unsupported format"@)) {
        Some("This looks like an IMAP server compatibility issue, not a bad password."@)
    } else {
        None
    }
}

/// A hint for the detail of a step, if one applies.
pub fn account_result_modal_hint(label: &str, detail: &str) -> (h: Option<&'static str>)
    ensures
        match result_hint(label@, detail@) {
            Some(t) => h is Some && h->0@ == t,
            None => h is None,
        },
{
    let detail = ascii_lowercase_str(detail);
    if str_eq(label, "Sync") && (contains_str(detail.as_str(), "namespace response") || contains_str(
        detail.as_str(),
        "could not parse",
    ) || contains_str(detail.as_str(), "unsupported format")) {
        return Some("This looks like an IMAP server compatibility issue, not a bad password.");
    }
    None
}

/// The lines a step contributes to the result modal: a blank line, the
/// step's name with `ok` or `failed`, its detail and perhaps a hint.
pub open spec fn step_lines(label: Seq<char>, step: Option<AccountOperationStep>) -> Seq<Seq<char>> {
    match step {
        Some(st) => seq![
            Seq::<char>::empty(),
            label + ": "@ + (if st.ok { "ok"@ } else { "failed"@ }),
            st.detail@,
        ] + match result_hint(label, st.detail@) {
            Some(h) => seq!["Hint: "@ + h],
            None => Seq::<Seq<char>>::empty(),
        },
        None => Seq::empty(),
    }
}

/// The text of the result modal.
pub open spec fn result_detail(r: AccountOperationResult) -> Seq<char> {
    join(
        seq![r.summary@] + step_lines("Save"@, r.save) + step_lines("Auth"@, r.auth) + step_lines(
            "Sync"@,
            r.sync,
        ) + step_lines("Send"@, r.send),
        "\n"@,
    )
}

fn push_step_lines(lines: &mut Vec<String>, label: &str, step: &Option<AccountOperationStep>)
    ensures
        final(lines)@.map_values(|p: String| p@) == old(lines)@.map_values(|p: String| p@)
            + step_lines(label@, *step),
{
    let ghost before = lines@.map_values(|p: String| p@);
    match step {
        Some(st) => {
            lines.push(String::new());
            let verdict = if st.ok { "ok" } else { "failed" };
            lines.push(concat3(label, ": ", verdict));
            lines.push(st.detail.clone());
            match account_result_modal_hint(label, st.detail.as_str()) {
                Some(hint) => {
                    lines.push(concat2("Hint: ", hint));
                },
                None => {},
            }
            assert(lines@.map_values(|p: String| p@) =~= before + step_lines(label@, *step));
        },
        None => {
            assert(before + step_lines(label@, *step) =~= before);
        },
    }
}

/// The text of the modal that shows an operation result: the summary,
/// then the lines of each step present, joined by newlines.
pub fn account_result_modal_detail(result: &AccountOperationResult) -> (d: String)
    ensures
        d@ == result_detail(*result),
{
    let mut lines: Vec<String> = Vec::new();
    lines.push(result.summary.clone());
    assert(lines@.map_values(|p: String| p@) =~= seq![result.summary@]);
    push_step_lines(&mut lines, "Save", &result.save);
    push_step_lines(&mut lines, "Auth", &result.auth);
    push_step_lines(&mut lines, "Sync", &result.sync);
    push_step_lines(&mut lines, "Send", &result.send);
    join_strings(&lines, "\n")
}

/// A result with nothing to report yet: successful, no summary, no
/// steps.
pub fn empty_account_operation_result() -> (r: AccountOperationResult)
    ensures
        r.ok,
        r.summary@.len() == 0,
        r.save is None && r.auth is None && r.sync is None && r.send is None,
        r.device_code_url is None && r.device_code_user_code is None,
{
    AccountOperationResult {
        ok: true,
        summary: String::new(),
        save: None,
        auth: None,
        sync: None,
        send: None,
        device_code_url: None,
        device_code_user_code: None,
    }
}

/// The summary of two results run one after the other.
pub open spec fn merged_summary(a: Seq<char>, b: Seq<char>) -> Seq<char> {
    if b.len() == 0 {
        a
    } else if a.len() == 0 {
        b
    } else {
        a + " | "@ + b
    }
}

/// Folds the result of a later step into `base`: both must succeed, the
/// summaries are chained with ` | `, and each step the later result
/// reports replaces the earlier one.
pub fn merge_account_operation_result(base: &mut AccountOperationResult, next: AccountOperationResult)
    ensures
        final(base).ok == (old(base).ok && next.ok),
        final(base).summary@ == merged_summary(old(base).summary@, next.summary@),
        final(base).save == (if next.save is Some { next.save } else { old(base).save }),
        final(base).auth == (if next.auth is Some { next.auth } else { old(base).auth }),
        final(base).sync == (if next.sync is Some { next.sync } else { old(base).sync }),
        final(base).send == (if next.send is Some { next.send } else { old(base).send }),
        final(base).device_code_url == old(base).device_code_url,
        final(base).device_code_user_code == old(base).device_code_user_code,
{
    base.ok = base.ok && next.ok;
    if !next.summary.as_str().is_empty() {
        if base.summary.as_str().is_empty() {
            base.summary = next.summary;
        } else {
            base.summary = concat3(base.summary.as_str(), " | ", next.summary.as_str());
        }
    }
    if next.save.is_some() {
        base.save = next.save;
    }
    if next.auth.is_some() {
        base.auth = next.auth;
    }
    if next.sync.is_some() {
        base.sync = next.sync;
    }
    if next.send.is_some() {
        base.send = next.send;
    }
}

// ---------------------------------------------------------------------
// Conversions between the form, configurations and summaries
// ---------------------------------------------------------------------

impl AccountSyncConfig {
    /// A copy of the configuration.
    pub fn duplicate(&self) -> (c: Self)
        ensures
            c == *self,
    {
        match self {
            AccountSyncConfig::Gmail { credential_source, client_id, client_secret, token_ref } => {
                AccountSyncConfig::Gmail {
                    credential_source: *credential_source,
                    client_id: client_id.clone(),
                    client_secret: duplicate_opt_string(client_secret),
                    token_ref: token_ref.clone(),
                }
            },
            AccountSyncConfig::Imap {
                host,
                port,
                username,
                password_ref,
                password,
                auth_required,
                use_tls,
            } => AccountSyncConfig::Imap {
                host: host.clone(),
                port: *port,
                username: username.clone(),
                password_ref: password_ref.clone(),
                password: duplicate_opt_string(password),
                auth_required: *auth_required,
                use_tls: *use_tls,
            },
        }
    }
}

impl AccountSendConfig {
    /// A copy of the configuration.
    pub fn duplicate(&self) -> (c: Self)
        ensures
            c == *self,
    {
        match self {
            AccountSendConfig::Gmail => AccountSendConfig::Gmail,
            AccountSendConfig::Smtp {
                host,
                port,
                username,
                password_ref,
                password,
                auth_required,
                use_tls,
            } => AccountSendConfig::Smtp {
                host: host.clone(),
                port: *port,
                username: username.clone(),
                password_ref: password_ref.clone(),
                password: duplicate_opt_string(password),
                auth_required: *auth_required,
                use_tls: *use_tls,
            },
        }
    }
}

/// The configuration of a listed account; `None` for accounts without a
/// key (those that are not in the configuration file).
pub fn account_summary_to_config(account: &AccountSummary) -> (c: Option<AccountConfig>)
    ensures
        match account.key {
            None => c is None,
            Some(k) => c matches Some(cfg) && cfg == (AccountConfig {
                key: k,
                name: account.name,
                email: account.email,
                sync: account.sync,
                send: account.send,
                is_default: account.is_default,
                enabled: account.enabled,
            }),
        },
{
    let key = match &account.key {
        Some(k) => k.clone(),
        None => {
            return None;
        },
    };
    Some(
        AccountConfig {
            key,
            name: account.name.clone(),
            email: account.email.clone(),
            sync: match &account.sync {
                Some(s) => Some(s.duplicate()),
                None => None,
            },
            send: match &account.send {
                Some(s) => Some(s.duplicate()),
                None => None,
            },
            is_default: account.is_default,
            enabled: account.enabled,
        },
    )
}

/// The name of the sync provider of a configuration.
pub fn account_sync_kind_label(sync: &AccountSyncConfig) -> (l: String)
    ensures
        l@ == match sync {
            AccountSyncConfig::Gmail { .. } => "gmail"@,
            AccountSyncConfig::Imap { .. } => "imap"@,
        },
{
    match sync {
        AccountSyncConfig::Gmail { .. } => String::from_str("gmail"),
        AccountSyncConfig::Imap { .. } => String::from_str("imap"),
    }
}

/// The name of the send provider of a configuration.
pub fn account_send_kind_label(send: &AccountSendConfig) -> (l: String)
    ensures
        l@ == match send {
            AccountSendConfig::Gmail => "gmail"@,
            AccountSendConfig::Smtp { .. } => "smtp"@,
        },
{
    match send {
        AccountSendConfig::Gmail => String::from_str("gmail"),
        AccountSendConfig::Smtp { .. } => String::from_str("smtp"),
    }
}

/// Whether `f` is the form that edits the account configured as
/// `account`.
pub open spec fn form_from_config(account: AccountConfig, f: AccountFormState) -> bool {
    &&& f.visible
    &&& !f.is_new_account
    &&& f.key@ =~= account.key@
    &&& f.name@ =~= account.name@
    &&& f.email@ =~= account.email@
    &&& f.pending_mode_switch is None
    &&& f.active_field == 0 && !f.editing_field && f.field_cursor == 0
    &&& f.last_result is None
    &&& !f.gmail_authorized
    &&& f.imap_password@.len() == 0
    &&& f.smtp_password@.len() == 0
    &&& match account.sync {
        Some(AccountSyncConfig::Gmail { credential_source, client_id, client_secret, token_ref }) => {
            &&& f.mode == AccountFormMode::Gmail
            &&& f.gmail_credential_source == credential_source
            &&& f.gmail_client_id@ =~= client_id@
            &&& f.gmail_client_secret@ =~= match client_secret {
                Some(cs) => cs@,
                None => Seq::empty(),
            }
            &&& f.gmail_token_ref@ =~= (if token_ref@.len() == 0 && account.send == Some(AccountSendConfig::Gmail) {
                key_ref(account.key@, "-gmail"@)
            } else {
                token_ref@
            })
            &&& f.imap_host@.len() == 0 && f.imap_port@ =~= "993"@ && f.imap_username@.len() == 0
            &&& f.imap_password_ref@.len() == 0 && f.imap_auth_required
        },
        Some(AccountSyncConfig::Imap { host, port, username, password_ref, auth_required, .. }) => {
            &&& f.mode == AccountFormMode::ImapSmtp
            &&& f.imap_host@ =~= host@
            &&& f.imap_port@ =~= decimal(port as nat)
            &&& f.imap_username@ =~= username@
            &&& f.imap_password_ref@ =~= password_ref@
            &&& f.imap_auth_required == auth_required
            &&& f.gmail_credential_source == GmailCredentialSource::Bundled
            &&& f.gmail_client_id@.len() == 0 && f.gmail_client_secret@.len() == 0
            &&& f.gmail_token_ref@ =~= (if account.send == Some(AccountSendConfig::Gmail) {
                key_ref(account.key@, "-gmail"@)
            } else {
                Seq::empty()
            })
        },
        None => {
            &&& f.mode == AccountFormMode::SmtpOnly
            &&& f.gmail_credential_source == GmailCredentialSource::Bundled
            &&& f.gmail_client_id@.len() == 0 && f.gmail_client_secret@.len() == 0
            &&& f.gmail_token_ref@ =~= (if account.send == Some(AccountSendConfig::Gmail) {
                key_ref(account.key@, "-gmail"@)
            } else {
                Seq::empty()
            })
            &&& f.imap_host@.len() == 0 && f.imap_port@ =~= "993"@ && f.imap_username@.len() == 0
            &&& f.imap_password_ref@.len() == 0 && f.imap_auth_required
        }
    }
    &&& match account.send {
        Some(AccountSendConfig::Smtp { host, port, username, password_ref, auth_required, .. }) => {
            &&& f.smtp_host@ =~= host@
            &&& f.smtp_port@ =~= decimal(port as nat)
            &&& f.smtp_username@ =~= username@
            &&& f.smtp_password_ref@ =~= password_ref@
            &&& f.smtp_auth_required == auth_required
        },
        _ => {
            &&& f.smtp_host@.len() == 0 && f.smtp_port@ =~= "587"@ && f.smtp_username@.len() == 0
            &&& f.smtp_password_ref@.len() == 0 && f.smtp_auth_required
        }
    }
}

/// The form that edits an existing account: visible, not new, filled
/// from the configuration; the mode follows the sync side (SMTP only
/// when there is none); a Gmail sender without a token reference gets
/// one derived from the key.
pub fn account_form_from_config(account: AccountConfig) -> (f: AccountFormState)
    ensures
        form_from_config(account, f),
{
    let mut form = AccountFormState::new();
    form.visible = true;
    form.is_new_account = false;
    form.key = account.key;
    form.name = account.name;
    form.email = account.email;
    match account.sync {
        Some(sync) => {
            match sync {
                AccountSyncConfig::Gmail { credential_source, client_id, client_secret, token_ref } => {
                    form.mode = AccountFormMode::Gmail;
                    form.gmail_credential_source = credential_source;
                    form.gmail_client_id = client_id;
                    form.gmail_client_secret = match client_secret {
                        Some(cs) => cs,
                        None => String::new(),
                    };
                    form.gmail_token_ref = token_ref;
                },
                AccountSyncConfig::Imap { host, port, username, password_ref, auth_required, .. } => {
                    form.mode = AccountFormMode::ImapSmtp;
                    form.imap_host = host;
                    form.imap_port = u64_to_decimal(port as u64);
                    form.imap_username = username;
                    form.imap_password_ref = password_ref;
                    form.imap_auth_required = auth_required;
                },
            }
        },
        None => {
            form.mode = AccountFormMode::SmtpOnly;
        },
    }
    match account.send {
        Some(AccountSendConfig::Smtp { host, port, username, password_ref, auth_required, .. }) => {
            form.smtp_host = host;
            form.smtp_port = u64_to_decimal(port as u64);
            form.smtp_username = username;
            form.smtp_password_ref = password_ref;
            form.smtp_auth_required = auth_required;
        },
        Some(AccountSendConfig::Gmail) => {
            if form.gmail_token_ref.as_str().is_empty() {
                form.gmail_token_ref = concat3("mxr/", form.key.as_str(), "-gmail");
            }
        },
        None => {},
    }
    form
}


// ---------------------------------------------------------------------
// The accounts page around the form
// ---------------------------------------------------------------------

/// The accounts page state that the form reads and changes.
pub struct AccountsPage {
    pub form: AccountFormState,
    /// A new-account form put aside when it was closed with input in it.
    pub new_account_draft: Option<AccountFormState>,
    pub resume_new_account_draft_prompt_open: bool,
    pub operation_in_flight: bool,
    pub status: Option<String>,
    pub last_result: Option<AccountOperationResult>,
    pub refresh_pending: bool,
}

/// What a key press in the account form asks of the rest of the
/// application.
#[derive(Debug, Clone, PartialEq, Eq)]
pub enum AccountFormKeyOutcome {
    /// Nothing beyond the change to the page.
    Nothing,
    /// Run this action.
    Run(Action),
    /// Show the details of the last operation result.
    ShowResultDetails,
}

/// `new` is `old` with the form closed: put aside as a draft first when
/// it is a new account with input in it.
pub open spec fn form_closed(old: AccountsPage, new: AccountsPage) -> bool {
    if !old.form.visible {
        new == old
    } else {
        let closed = AccountFormState {
            visible: false,
            pending_mode_switch: None,
            editing_field: false,
            ..old.form
        };
        &&& new.form == closed
        &&& new.new_account_draft == (if old.form.is_new_account && has_input(old.form) {
            Some(closed)
        } else {
            old.new_account_draft
        })
        &&& !new.resume_new_account_draft_prompt_open
        &&& new.operation_in_flight == old.operation_in_flight
        &&& new.status == old.status
        &&& new.last_result == old.last_result
        &&& new.refresh_pending == old.refresh_pending
    }
}

/// `new` differs from `old` at most in its form.
pub open spec fn only_form_changed(old: AccountsPage, new: AccountsPage) -> bool {
    &&& new.new_account_draft == old.new_account_draft
    &&& new.resume_new_account_draft_prompt_open == old.resume_new_account_draft_prompt_open
    &&& new.operation_in_flight == old.operation_in_flight
    &&& new.status == old.status
    &&& new.last_result == old.last_result
    &&& new.refresh_pending == old.refresh_pending
}

/// Length of the focused text field, 0 when the focus is not on one.
pub open spec fn active_len(f: AccountFormState) -> nat {
    match f.active_text() {
        Some(t) => t.len(),
        None => 0,
    }
}

/// The key is one of the given characters.
pub open spec fn is_char(k: KeyEvent, c: char) -> bool {
    k.code == KeyCode::Char(c)
}

/// The form after a key while a field is being edited.
pub open spec fn editing_step(old: AccountFormState, new: AccountFormState, key: KeyEvent) -> bool {
    match key.code {
        KeyCode::Esc | KeyCode::Enter => new == (AccountFormState { editing_field: false, ..old }),
        KeyCode::Tab => {
            let moved = AccountFormState {
                editing_field: false,
                active_field: ((old.active_field + 1) % (old.spec_field_count() as int)) as usize,
                ..old
            };
            new == (AccountFormState { field_cursor: active_len(moved) as usize, ..moved })
        },
        KeyCode::BackTab => {
            let moved = AccountFormState {
                editing_field: false,
                active_field: if old.active_field > 0 { (old.active_field - 1) as usize } else { 0 },
                ..old
            };
            new == (AccountFormState { field_cursor: active_len(moved) as usize, ..moved })
        },
        KeyCode::Left => new == (AccountFormState {
            field_cursor: if old.field_cursor > 0 { (old.field_cursor - 1) as usize } else { 0 },
            ..old
        }),
        KeyCode::Right => match old.active_text() {
            Some(t) => new == (AccountFormState {
                field_cursor: if old.field_cursor + 1 < t.len() { (old.field_cursor + 1) as usize } else { t.len() as usize },
                ..old
            }),
            None => new == old,
        },
        KeyCode::Home => new == (AccountFormState { field_cursor: 0, ..old }),
        KeyCode::End => new == (AccountFormState { field_cursor: active_len(old) as usize, ..old }),
        KeyCode::Backspace => exists|mid: AccountFormState| char_deleted(old, mid, true) && refreshed(mid, new),
        KeyCode::Delete => exists|mid: AccountFormState| char_deleted(old, mid, false) && refreshed(mid, new),
        KeyCode::Char(c) => if is_plain_or_shift(key.modifiers) {
            exists|mid: AccountFormState| char_inserted(old, mid, c) && refreshed(mid, new)
        } else {
            new == old
        },
        _ => new == old,
    }
}

/// Keys that move the focus, switch the mode or close the form.
pub open spec fn is_navigation_key(key: KeyEvent) -> bool {
    key.code == KeyCode::Esc || key.code == KeyCode::Left || is_char(key, 'h') || key.code
        == KeyCode::Right || is_char(key, 'l') || is_char(key, 'j') || key.code == KeyCode::Down
        || is_char(key, 'k') || key.code == KeyCode::Up || key.code == KeyCode::Tab || key.code
        == KeyCode::BackTab
}

/// The page after a navigation key while no field is being edited.
pub open spec fn navigation_step(old: AccountsPage, new: AccountsPage, key: KeyEvent) -> bool {
    let f = old.form;
    let count = f.spec_field_count();
    if key.code == KeyCode::Esc {
        form_closed(old, new)
    } else if key.code == KeyCode::Left || is_char(key, 'h') {
        only_form_changed(old, new) && mode_requested(f, new.form, false)
    } else if key.code == KeyCode::Right || is_char(key, 'l') {
        only_form_changed(old, new) && mode_requested(f, new.form, true)
    } else if is_char(key, 'j') || key.code == KeyCode::Down {
        new == (AccountsPage {
            form: AccountFormState { active_field: ((f.active_field + 1) % (count as int)) as usize, ..f },
            ..old
        })
    } else if is_char(key, 'k') || key.code == KeyCode::Up {
        new == (AccountsPage {
            form: AccountFormState {
                active_field: if f.active_field == 0 { (count - 1) as usize } else { (f.active_field - 1) as usize },
                ..f
            },
            ..old
        })
    } else if key.code == KeyCode::Tab {
        if f.active_field == 0 {
            only_form_changed(old, new) && mode_requested(f, new.form, true)
        } else {
            new == (AccountsPage {
                form: AccountFormState { active_field: ((f.active_field + 1) % (count as int)) as usize, ..f },
                ..old
            })
        }
    } else {
        if f.active_field == 0 {
            only_form_changed(old, new) && mode_requested(f, new.form, false)
        } else {
            new == (AccountsPage {
                form: AccountFormState { active_field: (f.active_field - 1) as usize, ..f },
                ..old
            })
        }
    }
}

/// The page and outcome after any other key while no field is being
/// edited.
pub open spec fn command_step(
    old: AccountsPage,
    new: AccountsPage,
    key: KeyEvent,
    out: AccountFormKeyOutcome,
) -> bool {
    let f = old.form;
    if key.code == KeyCode::Enter || is_char(key, 'i') {
        (if f.active_slot() is Some {
            new == (AccountsPage {
                form: AccountFormState { editing_field: true, field_cursor: active_len(f) as usize, ..f },
                ..old
            })
        } else if f.active_field == 0 {
            only_form_changed(old, new) && mode_requested(f, new.form, true)
        } else {
            only_form_changed(old, new) && toggled(f, new.form)
        }) && out == AccountFormKeyOutcome::Nothing
    } else if is_char(key, 't') {
        new == old && out == AccountFormKeyOutcome::Run(Action::TestAccountForm)
    } else if is_char(key, 'o') && has_details(f.last_result) {
        new == old && out == AccountFormKeyOutcome::ShowResultDetails
    } else if is_char(key, 'r') && f.mode == AccountFormMode::Gmail {
        new == old && out == AccountFormKeyOutcome::Run(Action::ReauthorizeAccountForm)
    } else if is_char(key, 's') {
        new == old && out == AccountFormKeyOutcome::Run(Action::SaveAccountForm)
    } else if is_char(key, ' ') {
        (if f.active_field == 0 {
            only_form_changed(old, new) && mode_requested(f, new.form, true)
        } else {
            only_form_changed(old, new) && toggled(f, new.form)
        }) && out == AccountFormKeyOutcome::Nothing
    } else {
        new == old && out == AccountFormKeyOutcome::Nothing
    }
}

/// The page and outcome after a key while the form is shown, no field is
/// being edited and no mode switch waits for confirmation.
pub open spec fn browsing_step(
    old: AccountsPage,
    new: AccountsPage,
    key: KeyEvent,
    out: AccountFormKeyOutcome,
) -> bool {
    if is_navigation_key(key) {
        navigation_step(old, new, key) && out == AccountFormKeyOutcome::Nothing
    } else {
        command_step(old, new, key, out)
    }
}

/// `new` is `old` with the switch under the focus flipped (unchanged when
/// the focus is not on a switch).
pub open spec fn toggled(old: AccountFormState, new: AccountFormState) -> bool {
    match toggle_at(old.mode, old.active_field as int) {
        Some(AccountFormToggleField::GmailCredentialSource) => {
            let src = other_source(old.gmail_credential_source);
            let count = field_count_of(old.mode, src);
            new == (AccountFormState {
                gmail_credential_source: src,
                active_field: if (old.active_field as int) < count - 1 {
                    old.active_field
                } else {
                    (count - 1) as usize
                },
                ..old
            })
        },
        Some(AccountFormToggleField::ImapAuthRequired) => new == (AccountFormState {
            imap_auth_required: !old.imap_auth_required,
            ..old
        }),
        Some(AccountFormToggleField::SmtpAuthRequired) => new == (AccountFormState {
            smtp_auth_required: !old.smtp_auth_required,
            ..old
        }),
        None => new == old,
    }
}

/// `new` is `old` with the new-account draft reopened (or an empty
/// new-account form when there is no draft).
pub open spec fn draft_restored(old: AccountsPage, new: AccountsPage) -> bool {
    &&& match old.new_account_draft {
        Some(d) => refreshed(
            AccountFormState { visible: true, pending_mode_switch: None, editing_field: false, ..d },
            new.form,
        ),
        None => {
            &&& new.form.visible && new.form.is_new_account
            &&& (AccountFormState { visible: false, is_new_account: false, ..new.form }).is_default()
        },
    }
    &&& new.new_account_draft is None
    &&& !new.resume_new_account_draft_prompt_open
    &&& new.operation_in_flight == old.operation_in_flight
    &&& new.status == old.status
    &&& new.last_result == old.last_result
    &&& new.refresh_pending == old.refresh_pending
}

/// Whether `new` and `out` are the accounts page and the outcome after
/// `key` reaches the account form of `old`.
pub open spec fn form_key_step(old: AccountsPage, new: AccountsPage, key: KeyEvent, out: AccountFormKeyOutcome) -> bool {
    match old.form.pending_mode_switch {
        Some(mode) => {
            &&& out == AccountFormKeyOutcome::Nothing
            &&& only_form_changed(old, new)
            &&& if key.code == KeyCode::Enter || is_char(key, 'y') {
                mode_applied(old.form, new.form, mode)
            } else if key.code == KeyCode::Esc || is_char(key, 'n') {
                new.form == (AccountFormState { pending_mode_switch: None, ..old.form })
            } else {
                new.form == old.form
            }
        },
        None => if old.form.editing_field {
            &&& out == AccountFormKeyOutcome::Nothing
            &&& only_form_changed(old, new)
            &&& editing_step(old.form, new.form, key)
        } else {
            browsing_step(old, new, key, out)
        },
    }
}

impl AccountsPage {
    /// An empty page.
    pub fn new() -> (p: Self)
        ensures
            p.form.is_default(),
            p.new_account_draft is None,
            !p.resume_new_account_draft_prompt_open,
            !p.operation_in_flight,
            p.status is None,
            p.last_result is None,
            !p.refresh_pending,
    {
        AccountsPage {
            form: AccountFormState::new(),
            new_account_draft: None,
            resume_new_account_draft_prompt_open: false,
            operation_in_flight: false,
            status: None,
            last_result: None,
            refresh_pending: false,
        }
    }

    /// Opens an empty form for a new account.
    pub fn open_new_account_form(&mut self)
        ensures
            final(self).form.visible,
            final(self).form.is_new_account,
            ({
                let f = final(self).form;
                AccountFormState { visible: false, is_new_account: false, ..f }.is_default()
            }),
            !final(self).resume_new_account_draft_prompt_open,
            final(self).new_account_draft == old(self).new_account_draft,
            final(self).operation_in_flight == old(self).operation_in_flight,
            final(self).status == old(self).status,
            final(self).last_result == old(self).last_result,
            final(self).refresh_pending == old(self).refresh_pending,
            fresh_form_opened(*old(self), *final(self)),
    {
        let mut form = AccountFormState::new();
        form.visible = true;
        form.is_new_account = true;
        self.form = form;
        self.resume_new_account_draft_prompt_open = false;
        self.form.refresh_derived_fields();
    }

    /// Reopens the new-account draft put aside earlier (or an empty form
    /// when there is none).
    pub fn restore_new_account_form_draft(&mut self)
        ensures
            draft_restored(*old(self), *final(self)),
    {
        match self.new_account_draft.take() {
            Some(mut draft) => {
                draft.visible = true;
                draft.pending_mode_switch = None;
                draft.editing_field = false;
                self.form = draft;
                self.resume_new_account_draft_prompt_open = false;
                self.form.refresh_derived_fields();
            },
            None => {
                self.open_new_account_form();
            },
        }
    }

    /// Closes the form, putting a new account's input aside as a draft.
    pub fn maybe_preserve_new_account_form_draft(&mut self)
        ensures
            form_closed(*old(self), *final(self)),
    {
        if !self.form.visible {
            return;
        }
        if self.form.is_new_account && self.form.has_meaningful_input() {
            let mut draft = self.form.duplicate();
            draft.visible = false;
            draft.pending_mode_switch = None;
            draft.editing_field = false;
            self.new_account_draft = Some(draft);
        }
        self.form.visible = false;
        self.form.pending_mode_switch = None;
        self.form.editing_field = false;
        self.resume_new_account_draft_prompt_open = false;
    }

    /// Reports a form that failed validation: the result becomes the
    /// status and the last result, and the focus moves to the first field
    /// at fault with the cursor at its end.
    pub fn fail_account_form_submission(&mut self, result: AccountOperationResult, first_invalid_field: usize)
        ensures
            !final(self).operation_in_flight,
            final(self).status matches Some(st) && st@ == result.summary@,
            final(self).last_result == Some(result),
            ({
                let f0 = old(self).form;
                let last = if f0.spec_field_count() > 0 { f0.spec_field_count() - 1 } else { 0 };
                let focused = AccountFormState {
                    last_result: Some(result),
                    active_field: if first_invalid_field < last { first_invalid_field } else { last as usize },
                    editing_field: false,
                    ..f0
                };
                final(self).form == (AccountFormState { field_cursor: active_len(focused) as usize, ..focused })
            }),
            final(self).new_account_draft == old(self).new_account_draft,
            final(self).resume_new_account_draft_prompt_open == old(self).resume_new_account_draft_prompt_open,
            final(self).refresh_pending == old(self).refresh_pending,
    {
        self.operation_in_flight = false;
        self.status = Some(result.summary.clone());
        self.last_result = Some(result.duplicate());
        self.form.last_result = Some(result);
        let count = self.form.field_count();
        let last = if count > 0 { count - 1 } else { 0 };
        self.form.active_field = if first_invalid_field < last { first_invalid_field } else { last };
        self.form.editing_field = false;
        self.form.field_cursor = active_field_len(&self.form);
    }

    /// Records the result of an account operation. A saved account
    /// clears the draft and closes the form; the Gmail authorization
    /// follows the auth step when there is one. Returns whether the
    /// details should be shown (a failure with step details).
    pub fn apply_account_operation_result(&mut self, result: AccountOperationResult) -> (show_details: bool)
        ensures
            show_details == (!result.ok && has_details(Some(result))),
            !final(self).operation_in_flight,
            final(self).status matches Some(st) && st@ == result.summary@,
            final(self).last_result == Some(result),
            final(self).form.last_result == Some(result),
            final(self).form.gmail_authorized == match result.auth {
                Some(step) => step.ok,
                None => old(self).form.gmail_authorized,
            },
            ({
                let saved = result.save matches Some(step) && step.ok;
                &&& final(self).form.visible == (old(self).form.visible && !saved)
                &&& final(self).new_account_draft == (if saved { None } else { old(self).new_account_draft })
                &&& final(self).resume_new_account_draft_prompt_open == (!saved
                    && old(self).resume_new_account_draft_prompt_open)
            }),
            final(self).form == (AccountFormState {
                last_result: final(self).form.last_result,
                gmail_authorized: final(self).form.gmail_authorized,
                visible: final(self).form.visible,
                ..old(self).form
            }),
            final(self).refresh_pending,
    {
        self.operation_in_flight = false;
        self.status = Some(result.summary.clone());
        self.last_result = Some(result.duplicate());
        self.form.last_result = Some(result.duplicate());
        match &result.auth {
            Some(step) => {
                self.form.gmail_authorized = step.ok;
            },
            None => {},
        }
        let saved = match &result.save {
            Some(step) => step.ok,
            None => false,
        };
        if saved {
            self.new_account_draft = None;
            self.resume_new_account_draft_prompt_open = false;
            self.form.visible = false;
        }
        let show = !result.ok && account_result_has_details(Some(&result));
        self.refresh_pending = true;
        show
    }

    /// The result whose details the form shows: the form's own last
    /// result, or else the page's.
    pub fn result_for_details(&self) -> (r: Option<AccountOperationResult>)
        ensures
            r == (if self.form.last_result is Some { self.form.last_result } else { self.last_result }),
    {
        match &self.form.last_result {
            Some(res) => Some(res.duplicate()),
            None => match &self.last_result {
                Some(res) => Some(res.duplicate()),
                None => None,
            },
        }
    }

    /// Handles a key press in the account form.
    #[verifier::spinoff_prover]
    #[verifier::rlimit(100)]
    pub fn handle_account_form_key(&mut self, key: KeyEvent) -> (out: AccountFormKeyOutcome)
        requires
            old(self).form.active_field < usize::MAX,
        ensures
            form_key_step(*old(self), *final(self), key, out),
    {
        match self.form.pending_mode_switch {
            Some(mode) => {
                if key.code == KeyCode::Enter || key.code == KeyCode::Char('y') {
                    self.form.apply_mode(mode);
                } else if key.code == KeyCode::Esc || key.code == KeyCode::Char('n') {
                    self.form.pending_mode_switch = None;
                }
                return AccountFormKeyOutcome::Nothing;
            },
            None => {},
        }
        if self.form.editing_field {
            self.handle_editing_key(key);
            return AccountFormKeyOutcome::Nothing;
        }
        let nav = key.code == KeyCode::Esc || key.code == KeyCode::Left || key.code
            == KeyCode::Char('h') || key.code == KeyCode::Right || key.code == KeyCode::Char('l')
            || key.code == KeyCode::Char('j') || key.code == KeyCode::Down || key.code
            == KeyCode::Char('k') || key.code == KeyCode::Up || key.code == KeyCode::Tab || key.code
            == KeyCode::BackTab;
        if nav {
            self.handle_navigation_key(key);
            AccountFormKeyOutcome::Nothing
        } else {
            self.handle_command_key(key)
        }
    }

    /// Handles a key that moves the focus, switches the mode or closes
    /// the form.
    #[verifier::spinoff_prover]
    #[verifier::rlimit(100)]
    fn handle_navigation_key(&mut self, key: KeyEvent)
        requires
            old(self).form.active_field < usize::MAX,
            is_navigation_key(key),
        ensures
            navigation_step(*old(self), *final(self), key),
    {
        let count = self.form.field_count();
        match key.code {
            KeyCode::Esc => {
                self.maybe_preserve_new_account_form_draft();
            },
            KeyCode::Left | KeyCode::Char('h') => {
                self.form.request_mode_change(false);
            },
            KeyCode::Right | KeyCode::Char('l') => {
                self.form.request_mode_change(true);
            },
            KeyCode::Char('j') | KeyCode::Down => {
                self.form.active_field = (self.form.active_field + 1) % count;
            },
            KeyCode::Char('k') | KeyCode::Up => {
                self.form.active_field = if self.form.active_field == 0 {
                    count - 1
                } else {
                    self.form.active_field - 1
                };
            },
            KeyCode::Tab => {
                if self.form.active_field == 0 {
                    self.form.request_mode_change(true);
                } else {
                    self.form.active_field = (self.form.active_field + 1) % count;
                }
            },
            _ => {
                if self.form.active_field == 0 {
                    self.form.request_mode_change(false);
                } else {
                    self.form.active_field = self.form.active_field - 1;
                }
            },
        }
    }

    /// Handles the keys that edit, switch or submit the form.
    #[verifier::spinoff_prover]
    #[verifier::rlimit(100)]
    fn handle_command_key(&mut self, key: KeyEvent) -> (out: AccountFormKeyOutcome)
        requires
            !is_navigation_key(key),
        ensures
            command_step(*old(self), *final(self), key, out),
    {
        match key.code {
            KeyCode::Enter | KeyCode::Char('i') => {
                if account_form_field_is_editable(&self.form) {
                    self.form.editing_field = true;
                    self.form.field_cursor = active_field_len(&self.form);
                } else if self.form.active_field == 0 {
                    self.form.request_mode_change(true);
                } else {
                    let _ = self.form.toggle_current_field(true);
                }
                AccountFormKeyOutcome::Nothing
            },
            KeyCode::Char('t') => AccountFormKeyOutcome::Run(Action::TestAccountForm),
            KeyCode::Char('o') if account_result_has_details(self.form.last_result.as_ref()) => {
                AccountFormKeyOutcome::ShowResultDetails
            },
            KeyCode::Char('r') if self.form.mode == AccountFormMode::Gmail => {
                AccountFormKeyOutcome::Run(Action::ReauthorizeAccountForm)
            },
            KeyCode::Char('s') => AccountFormKeyOutcome::Run(Action::SaveAccountForm),
            KeyCode::Char(' ') => {
                if self.form.active_field == 0 {
                    self.form.request_mode_change(true);
                } else {
                    let _ = self.form.toggle_current_field(true);
                }
                AccountFormKeyOutcome::Nothing
            },
            _ => AccountFormKeyOutcome::Nothing,
        }
    }

    /// Handles a key while a field is being edited.
    #[verifier::spinoff_prover]
    #[verifier::rlimit(100)]
    fn handle_editing_key(&mut self, key: KeyEvent)
        requires
            old(self).form.active_field < usize::MAX,
        ensures
            only_form_changed(*old(self), *final(self)),
            editing_step(old(self).form, final(self).form, key),
    {
        match key.code {
            KeyCode::Esc | KeyCode::Enter => {
                self.form.editing_field = false;
            },
            KeyCode::Tab => {
                self.form.editing_field = false;
                self.form.active_field = (self.form.active_field + 1) % self.form.field_count();
                self.form.field_cursor = active_field_len(&self.form);
            },
            KeyCode::BackTab => {
                self.form.editing_field = false;
                self.form.active_field = if self.form.active_field > 0 {
                    self.form.active_field - 1
                } else {
                    0
                };
                self.form.field_cursor = active_field_len(&self.form);
            },
            KeyCode::Left => {
                self.form.field_cursor = if self.form.field_cursor > 0 {
                    self.form.field_cursor - 1
                } else {
                    0
                };
            },
            KeyCode::Right => {
                match account_form_field_value(&self.form) {
                    Some(value) => {
                        let len = value.unicode_len();
                        let cur = self.form.field_cursor;
                        self.form.field_cursor = if cur < len && cur + 1 < len {
                            cur + 1
                        } else {
                            len
                        };
                    },
                    None => {},
                }
            },
            KeyCode::Home => {
                self.form.field_cursor = 0;
            },
            KeyCode::End => {
                self.form.field_cursor = active_field_len(&self.form);
            },
            KeyCode::Backspace => {
                let ghost before = self.form;
                delete_account_form_char(&mut self.form, true);
                let ghost mid = self.form;
                self.form.refresh_derived_fields();
                assert(char_deleted(before, mid, true) && refreshed(mid, self.form));
            },
            KeyCode::Delete => {
                let ghost before = self.form;
                delete_account_form_char(&mut self.form, false);
                let ghost mid = self.form;
                self.form.refresh_derived_fields();
                assert(char_deleted(before, mid, false) && refreshed(mid, self.form));
            },
            KeyCode::Char(c) => {
                if plain_or_shift(key.modifiers) {
                    let ghost before = self.form;
                    insert_account_form_char(&mut self.form, c);
                    let ghost mid = self.form;
                    self.form.refresh_derived_fields();
                    assert(char_inserted(before, mid, c) && refreshed(mid, self.form));
                }
            },
            _ => {},
        }
    }
}


// ---------------------------------------------------------------------
// Laws
// ---------------------------------------------------------------------

/// Stepping the mode forward and then back returns to where it was, and
/// three steps in either direction visit every mode and come back.
pub proof fn law_mode_cycle(m: AccountFormMode, forward: bool)
    ensures
        mode_after(mode_after(m, forward), !forward) == m,
        mode_after(mode_after(mode_after(m, forward), forward), forward) == m,
        mode_after(m, forward) != m,
{
}

/// Switching the Gmail credential source twice gives the source back.
pub proof fn law_credential_source_involution(s: GmailCredentialSource)
    ensures
        other_source(other_source(s)) == s,
        other_source(s) != s,
{
}

/// A form that passes validation configures the IMAP and SMTP ports that
/// were typed (when they were typed without surrounding spaces).
#[verifier::spinoff_prover]
#[verifier::rlimit(60)]
pub proof fn law_validated_ports_are_kept(f: AccountFormState)
    requires
        f.invalid_fields().len() == 0,
        trim(f.imap_port@) == f.imap_port@,
        trim(f.smtp_port@) == f.smtp_port@,
    ensures
        f.mode == AccountFormMode::ImapSmtp ==> (parse_unsigned(f.imap_port@, u16::MAX as nat)
            matches Some(p) && port_or(f.imap_port@, 993) == p),
        f.mode != AccountFormMode::Gmail ==> (parse_unsigned(f.smtp_port@, u16::MAX as nat)
            matches Some(p) && port_or(f.smtp_port@, 587) == p),
{
    f.lemma_validation_shape();
    assert(f.sync_fields().len() == 0);
    assert(f.send_fields().len() == 0);
    if f.mode == AccountFormMode::ImapSmtp {
        assert(f.sync_fields().len() == 0);
        assert(!is_blank(f.imap_port@));
        assert(!port_invalid(f.imap_port@));
    }
    if f.mode != AccountFormMode::Gmail {
        assert(f.send_fields().len() == 0);
        assert(!is_blank(f.smtp_port@));
        assert(!port_invalid(f.smtp_port@));
    }
}

/// Typing a character and then pressing backspace leaves the field and
/// the cursor as they were (for a cursor within the field).
pub proof fn law_backspace_undoes_typing(
    a: AccountFormState,
    b: AccountFormState,
    c: AccountFormState,
    ch: char,
)
    requires
        char_inserted(a, b, ch),
        char_deleted(b, c, true),
        a.active_slot() is Some,
        a.field_cursor <= a.slot_text(a.active_slot()->0).len(),
        a.field_cursor < usize::MAX,
    ensures
        c.slot_text(a.active_slot()->0) == a.slot_text(a.active_slot()->0),
        c.field_cursor == a.field_cursor,
        c.same_except_slot(&a, a.active_slot()->0),
{
    let slot = a.active_slot()->0;
    let t = a.slot_text(slot);
    let k = a.field_cursor as int;
    assert(b.active_slot() == a.active_slot());
    assert(b.slot_text(slot) == t.take(k).push(ch) + t.skip(k));
    assert((t.take(k).push(ch) + t.skip(k)).remove(k) =~= t);
    assert forall|s: FieldSlot| s != slot implies #[trigger] c.slot_text(s) == a.slot_text(s) by {
        assert(c.slot_text(s) == b.slot_text(s));
        assert(b.slot_text(s) == a.slot_text(s));
    }
}

/// Closing a new-account form that has input and then reopening the
/// draft gives back the form as it was typed: the same mode, the same
/// text in every field, the same focus.
pub proof fn law_closed_draft_reopens(p0: AccountsPage, p1: AccountsPage, p2: AccountsPage)
    requires
        p0.form.visible,
        p0.form.is_new_account,
        has_input(p0.form),
        form_closed(p0, p1),
        draft_restored(p1, p2),
    ensures
        p2.form.visible,
        p2.form.mode == p0.form.mode,
        p2.form.active_field == p0.form.active_field,
        p2.form.key@ == p0.form.key@,
        forall|s: FieldSlot| #[trigger] p2.form.slot_text(s) == p0.form.slot_text(s),
        p2.new_account_draft is None,
{
}

/// Every field number in `s` is at least `lo`.
pub open spec fn all_at_least(s: Seq<nat>, lo: nat) -> bool {
    forall|i: int| 0 <= i < s.len() ==> s[i] >= lo
}

/// `s` runs in increasing order (ties allowed), within `lo..=hi`.
pub open spec fn ordered_within(s: Seq<nat>, lo: nat, hi: nat) -> bool {
    &&& forall|i: int, j: int| 0 <= i <= j < s.len() ==> s[i] <= s[j]
    &&& forall|i: int| 0 <= i < s.len() ==> lo <= #[trigger] s[i] <= hi
}

proof fn lemma_flag_within(c: bool, f: nat, lo: nat, hi: nat)
    requires
        c ==> lo <= f <= hi,
    ensures
        ordered_within(flag(c, f), lo, hi),
        c ==> all_at_least(flag(c, f), f),
{
}

proof fn lemma_concat_within(a: Seq<nat>, b: Seq<nat>, lo: nat, m1: nat, m2: nat, hi: nat)
    requires
        ordered_within(a, lo, m1),
        ordered_within(b, m2, hi),
        lo <= m1 <= m2 <= hi,
    ensures
        ordered_within(a + b, lo, hi),
{
    assert forall|i: int, j: int| 0 <= i <= j < (a + b).len() implies (a + b)[i] <= (a + b)[j] by {
        if j < a.len() {
        } else if i >= a.len() {
            assert((a + b)[i] == b[i - a.len()]);
            assert((a + b)[j] == b[j - a.len()]);
        } else {
            assert((a + b)[j] == b[j - a.len()]);
        }
    }
    assert forall|i: int| 0 <= i < (a + b).len() implies lo <= #[trigger] (a + b)[i] <= hi by {
        if i >= a.len() {
            assert((a + b)[i] == b[i - a.len()]);
        }
    }
}

proof fn lemma_concat_at_least(a: Seq<nat>, b: Seq<nat>, lo: nat)
    requires
        all_at_least(a, lo),
        all_at_least(b, lo),
    ensures
        all_at_least(a + b, lo),
{
    assert forall|i: int| 0 <= i < (a + b).len() implies #[trigger] (a + b)[i] >= lo by {
        if i >= a.len() {
            assert((a + b)[i] == b[i - a.len()]);
        }
    }
}

/// Five problem flags whose fields are all at least `lo`.
proof fn lemma_five_at_least(
    c1: bool,
    c2: bool,
    c3: bool,
    c4: bool,
    c5: bool,
    f1: nat,
    f2: nat,
    f3: nat,
    f4: nat,
    f5: nat,
    lo: nat,
)
    requires
        f1 >= lo,
        f2 >= lo,
        f3 >= lo,
        f4 >= lo,
        f5 >= lo,
    ensures
        all_at_least(flag(c1, f1) + flag(c2, f2) + flag(c3, f3) + flag(c4, f4) + flag(c5, f5), lo),
{
    let (a, b, c, d, e) = (flag(c1, f1), flag(c2, f2), flag(c3, f3), flag(c4, f4), flag(c5, f5));
    lemma_concat_at_least(a, b, lo);
    lemma_concat_at_least(a + b, c, lo);
    lemma_concat_at_least(a + b + c, d, lo);
    lemma_concat_at_least(a + b + c + d, e, lo);
}

/// Five problem flags in increasing field order, the fourth not raised.
proof fn lemma_five_ordered(
    c1: bool,
    c2: bool,
    c3: bool,
    c5: bool,
    f1: nat,
    f2: nat,
    f4: nat,
    f5: nat,
)
    requires
        f1 <= f2 <= f5,
    ensures
        ordered_within(
            flag(c1, f1) + flag(c2, f2) + flag(c3, f2) + flag(false, f4) + flag(c5, f5),
            f1,
            f5,
        ),
{
    let (a, b, c, d, e) = (flag(c1, f1), flag(c2, f2), flag(c3, f2), flag(false, f4), flag(c5, f5));
    lemma_flag_within(c1, f1, f1, f1);
    lemma_flag_within(c2, f2, f2, f2);
    lemma_flag_within(c3, f2, f2, f2);
    lemma_flag_within(false, f4, f2, f2);
    lemma_flag_within(c5, f5, f5, f5);
    lemma_concat_within(a, b, f1, f1, f2, f2);
    lemma_concat_within(a + b, c, f1, f2, f2, f2);
    lemma_concat_within(a + b + c, d, f1, f2, f2, f2);
    lemma_concat_within(a + b + c + d, e, f1, f2, f5, f5);
}

impl AccountFormState {
    /// Every field number of the problems found past the account key is
    /// at least 3.
    proof fn lemma_past_key_at_least_three(&self)
        ensures
            all_at_least(self.auth_fields() + self.sync_fields() + self.send_fields(), 3),
    {
        lemma_concat_at_least(
            flag(is_blank(self.gmail_client_id@), 5),
            flag(is_blank(self.gmail_client_secret@), 6),
            3,
        );
        lemma_five_at_least(
            is_blank(self.imap_host@),
            is_blank(self.imap_port@),
            port_invalid(self.imap_port@),
            self.imap_auth_required && is_blank(self.email@) && is_blank(self.imap_username@),
            self.imap_auth_required && is_blank(self.imap_password_ref@)
                && self.imap_password@.len() == 0,
            4,
            5,
            5,
            3,
            9,
            3,
        );
        lemma_five_at_least(
            is_blank(self.smtp_host@),
            is_blank(self.smtp_port@),
            port_invalid(self.smtp_port@),
            self.smtp_auth_required && is_blank(self.email@) && is_blank(self.smtp_username@),
            self.smtp_auth_required && is_blank(self.smtp_password_ref@)
                && self.smtp_password@.len() == 0,
            self.smtp_field(0),
            self.smtp_field(1),
            self.smtp_field(1),
            3,
            self.smtp_field(2),
            3,
        );
        assert(all_at_least(Seq::<nat>::empty(), 3));
        lemma_concat_at_least(self.auth_fields(), self.sync_fields(), 3);
        lemma_concat_at_least(self.auth_fields() + self.sync_fields(), self.send_fields(), 3);
    }

    /// With the email filled in, the problems past the account key come
    /// in increasing field order.
    proof fn lemma_ordered_with_email(&self)
        requires
            !is_blank(self.email@),
        ensures
            ordered_within(self.auth_fields() + self.sync_fields() + self.send_fields(), 0, 15),
    {
        let e: Seq<nat> = Seq::empty();
        if self.mode == AccountFormMode::ImapSmtp {
            lemma_five_ordered(
                is_blank(self.imap_host@),
                is_blank(self.imap_port@),
                port_invalid(self.imap_port@),
                self.imap_auth_required && is_blank(self.imap_password_ref@)
                    && self.imap_password@.len() == 0,
                4,
                5,
                3,
                9,
            );
            lemma_five_ordered(
                is_blank(self.smtp_host@),
                is_blank(self.smtp_port@),
                port_invalid(self.smtp_port@),
                self.smtp_auth_required && is_blank(self.smtp_password_ref@)
                    && self.smtp_password@.len() == 0,
                10,
                11,
                3,
                15,
            );
            assert(self.auth_fields() =~= e);
            lemma_concat_within(e, self.sync_fields(), 0, 0, 4, 9);
            lemma_concat_within(e + self.sync_fields(), self.send_fields(), 0, 9, 10, 15);
        } else if self.mode == AccountFormMode::SmtpOnly {
            lemma_five_ordered(
                is_blank(self.smtp_host@),
                is_blank(self.smtp_port@),
                port_invalid(self.smtp_port@),
                self.smtp_auth_required && is_blank(self.smtp_password_ref@)
                    && self.smtp_password@.len() == 0,
                4,
                5,
                3,
                9,
            );
            assert(self.auth_fields() =~= e);
            assert(self.sync_fields() =~= e);
            lemma_concat_within(e, e, 0, 0, 0, 0);
            lemma_concat_within(e + e, self.send_fields(), 0, 0, 4, 9);
        } else {
            lemma_flag_within(is_blank(self.gmail_client_id@), 5, 5, 5);
            lemma_flag_within(is_blank(self.gmail_client_secret@), 6, 6, 6);
            lemma_concat_within(
                flag(is_blank(self.gmail_client_id@), 5),
                flag(is_blank(self.gmail_client_secret@), 6),
                5,
                5,
                6,
                6,
            );
            assert(self.sync_fields() =~= e);
            assert(self.send_fields() =~= e);
            assert(ordered_within(self.auth_fields(), 0, 6));
            lemma_concat_within(self.auth_fields(), e, 0, 6, 6, 6);
            lemma_concat_within(self.auth_fields() + e, e, 0, 6, 6, 6);
        }
    }
}

/// The field a failed validation points at (the first problem in check
/// order) is the smallest field number with a problem.
pub proof fn law_first_invalid_field_is_smallest(form: AccountFormState, i: int)
    requires
        0 <= i < form.invalid_fields().len(),
    ensures
        form.invalid_fields()[0] <= form.invalid_fields()[i],
{
    let inv = form.invalid_fields();
    let rest = form.auth_fields() + form.sync_fields() + form.send_fields();
    assert(inv =~= form.save_fields() + rest);
    form.lemma_past_key_at_least_three();
    if is_blank(form.key@) {
        assert(inv[0] == 1);
    } else if is_blank(form.email@) {
        assert(form.save_fields() =~= seq![3nat]);
        assert(inv[0] == 3);
        if i > 0 {
            assert(inv[i] == rest[i - 1]);
        }
    } else {
        assert(form.save_fields() =~= Seq::<nat>::empty());
        assert(inv =~= rest);
        form.lemma_ordered_with_email();
    }
}

/// `new` is `old` with an empty form for a new account open.
pub open spec fn fresh_form_opened(old: AccountsPage, new: AccountsPage) -> bool {
    &&& new.form.visible
    &&& new.form.is_new_account
    &&& (AccountFormState { visible: false, is_new_account: false, ..new.form }).is_default()
    &&& !new.resume_new_account_draft_prompt_open
    &&& new.new_account_draft == old.new_account_draft
    &&& new.operation_in_flight == old.operation_in_flight
    &&& new.status == old.status
    &&& new.last_result == old.last_result
    &&& new.refresh_pending == old.refresh_pending
}

/// What a key on the accounts screen asks of the rest of the application.
pub enum AccountsScreenKeyOutcome {
    /// Nothing beyond the change to the page.
    Nothing,
    /// Run this action.
    Run(Action),
    /// Show the details of the last operation result.
    ShowResultDetails,
    /// The screen has no use for the key: the general key bindings get it.
    Unbound,
}

/// The configuration of a listed account that has a key.
pub open spec fn summary_config(a: AccountSummary) -> AccountConfig {
    AccountConfig {
        key: a.key->0,
        name: a.name,
        email: a.email,
        sync: a.sync,
        send: a.send,
        is_default: a.is_default,
        enabled: a.enabled,
    }
}

/// Said when the highlighted account is not in the configuration file.
pub open spec fn runtime_only_notice() -> Seq<char> {
    "Runtime-only account is inspectable but not editable here."@
}

/// The accounts list after `Enter` or `o` on the highlighted account:
/// the form opens on its configuration, or the status says it cannot.
pub open spec fn account_opened(old: AccountsPage, new: AccountsPage, accounts: Seq<AccountSummary>, sel: int) -> bool {
    if 0 <= sel < accounts.len() {
        match accounts[sel].key {
            Some(_) => {
                &&& form_from_config(summary_config(accounts[sel]), new.form)
                &&& new == (AccountsPage { form: new.form, ..old })
            },
            None => {
                &&& new.status matches Some(st) && st@ == runtime_only_notice()
                &&& new == (AccountsPage { status: new.status, ..old })
            },
        }
    } else {
        new == old
    }
}

/// Whether `new`, the highlighted row `sel2` and `out` follow from `key`
/// on the accounts screen in state `old` with the highlight on `sel`: the
/// prompt to resume a new-account draft takes keys first, then an open
/// form, then the accounts list.
pub open spec fn accounts_screen_step(
    old: AccountsPage,
    new: AccountsPage,
    accounts: Seq<AccountSummary>,
    sel: int,
    sel2: int,
    onboarding_required: bool,
    key: KeyEvent,
    out: AccountsScreenKeyOutcome,
) -> bool {
    if old.resume_new_account_draft_prompt_open {
        &&& sel2 == sel
        &&& out is Nothing
        &&& if key.code == KeyCode::Enter || is_char(key, 'c') {
            draft_restored(old, new)
        } else if is_char(key, 'n') {
            fresh_form_opened(AccountsPage { new_account_draft: None, ..old }, new)
        } else if key.code == KeyCode::Esc {
            new == (AccountsPage { resume_new_account_draft_prompt_open: false, ..old })
        } else {
            new == old
        }
    } else if old.form.visible {
        &&& sel2 == sel
        &&& match out {
            AccountsScreenKeyOutcome::Nothing => form_key_step(old, new, key, AccountFormKeyOutcome::Nothing),
            AccountsScreenKeyOutcome::Run(a) => form_key_step(old, new, key, AccountFormKeyOutcome::Run(a)),
            AccountsScreenKeyOutcome::ShowResultDetails => form_key_step(
                old,
                new,
                key,
                AccountFormKeyOutcome::ShowResultDetails,
            ),
            AccountsScreenKeyOutcome::Unbound => false,
        }
    } else if is_char(key, 'j') || key.code == KeyCode::Down {
        &&& new == old
        &&& sel2 == (if sel + 1 < accounts.len() { sel + 1 } else { sel })
        &&& out is Nothing
    } else if is_char(key, 'k') || key.code == KeyCode::Up {
        &&& new == old
        &&& sel2 == (if sel > 0 { sel - 1 } else { 0 })
        &&& out is Nothing
    } else if key.code == KeyCode::Enter || is_char(key, 'o') {
        &&& account_opened(old, new, accounts, sel)
        &&& sel2 == sel
        &&& out is Nothing
    } else {
        &&& new == old
        &&& sel2 == sel
        &&& out == (if is_char(key, 'n') {
            AccountsScreenKeyOutcome::Run(Action::OpenAccountFormNew)
        } else if is_char(key, 'r') {
            AccountsScreenKeyOutcome::Run(Action::RefreshAccounts)
        } else if is_char(key, 't') {
            AccountsScreenKeyOutcome::Run(Action::TestAccountForm)
        } else if is_char(key, 'O') && is_plain_or_shift(key.modifiers) && has_details(old.last_result) {
            AccountsScreenKeyOutcome::ShowResultDetails
        } else if is_char(key, 'd') {
            AccountsScreenKeyOutcome::Run(Action::SetDefaultAccount)
        } else if is_char(key, 'c') {
            AccountsScreenKeyOutcome::Run(Action::EditConfig)
        } else if key.code == KeyCode::Esc && onboarding_required {
            AccountsScreenKeyOutcome::Nothing
        } else if key.code == KeyCode::Esc {
            AccountsScreenKeyOutcome::Run(Action::OpenMailboxScreen)
        } else {
            AccountsScreenKeyOutcome::Unbound
        })
    }
}

fn key_char(key: KeyEvent, c: char) -> (b: bool)
    ensures
        b == is_char(key, c),
{
    match key.code {
        KeyCode::Char(k) => k == c,
        _ => false,
    }
}

impl AccountsPage {
    /// Handles a key on the accounts screen, with `accounts` listed and
    /// the highlight on row `selected_index`; `onboarding_required` says
    /// that the first account is still to be set up, which keeps Esc on
    /// the screen.
    pub fn handle_accounts_screen_key(
        &mut self,
        key: KeyEvent,
        accounts: &[AccountSummary],
        selected_index: &mut usize,
        onboarding_required: bool,
    ) -> (out: AccountsScreenKeyOutcome)
        requires
            !old(self).resume_new_account_draft_prompt_open && old(self).form.visible
                ==> old(self).form.active_field < usize::MAX,
        ensures
            accounts_screen_step(
                *old(self),
                *final(self),
                accounts@,
                *old(selected_index) as int,
                *final(selected_index) as int,
                onboarding_required,
                key,
                out,
            ),
    {
        if self.resume_new_account_draft_prompt_open {
            if key.code == KeyCode::Enter || key_char(key, 'c') {
                self.restore_new_account_form_draft();
            } else if key_char(key, 'n') {
                self.new_account_draft = None;
                self.open_new_account_form();
            } else if key.code == KeyCode::Esc {
                self.resume_new_account_draft_prompt_open = false;
            }
            return AccountsScreenKeyOutcome::Nothing;
        }
        if self.form.visible {
            return match self.handle_account_form_key(key) {
                AccountFormKeyOutcome::Nothing => AccountsScreenKeyOutcome::Nothing,
                AccountFormKeyOutcome::Run(a) => AccountsScreenKeyOutcome::Run(a),
                AccountFormKeyOutcome::ShowResultDetails => AccountsScreenKeyOutcome::ShowResultDetails,
            };
        }
        let sel = *selected_index;
        if key_char(key, 'j') || key.code == KeyCode::Down {
            if sel < accounts.len() && accounts.len() - sel > 1 {
                *selected_index = sel + 1;
            }
            return AccountsScreenKeyOutcome::Nothing;
        }
        if key_char(key, 'k') || key.code == KeyCode::Up {
            if sel > 0 {
                *selected_index = sel - 1;
            }
            return AccountsScreenKeyOutcome::Nothing;
        }
        if key.code == KeyCode::Enter || key_char(key, 'o') {
            if sel < accounts.len() {
                match account_summary_to_config(&accounts[sel]) {
                    Some(config) => {
                        self.form = account_form_from_config(config);
                    },
                    None => {
                        self.status = Some(crate::text::owned("Runtime-only account is inspectable but not editable here."));
                    },
                }
            }
            return AccountsScreenKeyOutcome::Nothing;
        }
        if key_char(key, 'n') {
            AccountsScreenKeyOutcome::Run(Action::OpenAccountFormNew)
        } else if key_char(key, 'r') {
            AccountsScreenKeyOutcome::Run(Action::RefreshAccounts)
        } else if key_char(key, 't') {
            AccountsScreenKeyOutcome::Run(Action::TestAccountForm)
        } else if key_char(key, 'O') && plain_or_shift(key.modifiers) && account_result_has_details(
            self.last_result.as_ref(),
        ) {
            AccountsScreenKeyOutcome::ShowResultDetails
        } else if key_char(key, 'd') {
            AccountsScreenKeyOutcome::Run(Action::SetDefaultAccount)
        } else if key_char(key, 'c') {
            AccountsScreenKeyOutcome::Run(Action::EditConfig)
        } else if key.code == KeyCode::Esc && onboarding_required {
            AccountsScreenKeyOutcome::Nothing
        } else if key.code == KeyCode::Esc {
            AccountsScreenKeyOutcome::Run(Action::OpenMailboxScreen)
        } else {
            AccountsScreenKeyOutcome::Unbound
        }
    }
}

/// Whether the account at `i` is the one requests fall back to when no
/// account is named: the first that is default and enabled, or else,
/// when none is, the first enabled one.
pub open spec fn is_fallback_account(accounts: Seq<AccountSummary>, i: int) -> bool {
    &&& 0 <= i < accounts.len()
    &&& accounts[i].enabled
    &&& if exists|j: int| 0 <= j < accounts.len() && accounts[j].is_default && accounts[j].enabled {
        &&& accounts[i].is_default
        &&& forall|j: int| 0 <= j < i ==> !(accounts[j].is_default && accounts[j].enabled)
    } else {
        forall|j: int| 0 <= j < i ==> !accounts[j].enabled
    }
}

/// The position of the account requests fall back to when none is
/// named; `None` when no account is enabled.
pub fn default_account_index(accounts: &[AccountSummary]) -> (r: Option<usize>)
    ensures
        r matches Some(i) ==> is_fallback_account(accounts@, i as int),
        r is None <==> forall|j: int| 0 <= j < accounts@.len() ==> !accounts@[j].enabled,
{
    let mut i: usize = 0;
    while i < accounts.len()
        invariant
            i <= accounts@.len(),
            forall|j: int| 0 <= j < i ==> !(accounts@[j].is_default && accounts@[j].enabled),
        decreases accounts.len() - i,
    {
        if accounts[i].is_default && accounts[i].enabled {
            return Some(i);
        }
        i = i + 1;
    }
    let mut k: usize = 0;
    while k < accounts.len()
        invariant
            k <= accounts@.len(),
            forall|j: int| 0 <= j < accounts@.len() ==> !(accounts@[j].is_default && accounts@[j].enabled),
            forall|j: int| 0 <= j < k ==> !accounts@[j].enabled,
        decreases accounts.len() - k,
    {
        if accounts[k].enabled {
            return Some(k);
        }
        k = k + 1;
    }
    None
}

/// Whether `c` is the configuration the form `f` describes.
pub open spec fn form_data(f: AccountFormState, is_default: bool, c: AccountConfig) -> bool {
    &&& c.key@ =~= form_key(f)
    &&& c.name@ =~= (if is_blank(f.name@) { form_key(f) } else { trim(f.name@) })
    &&& c.email@ =~= trim(f.email@)
    &&& sync_matches(f, c.sync)
    &&& send_matches(f, c.send)
    &&& c.is_default == is_default
    &&& c.enabled
}

/// Whether `res` and `first` are what the validation of `f` reports when
/// it fails.
pub open spec fn validation_result(f: AccountFormState, res: AccountOperationResult, first: usize) -> bool {
    &&& f.invalid_fields().len() > 0
    &&& first == f.invalid_fields()[0]
    &&& !res.ok
    &&& res.summary@ =~= form_problems_summary()
    &&& step_matches(res.save, f.save_issues())
    &&& step_matches(res.auth, f.auth_issues())
    &&& step_matches(res.sync, f.sync_issues())
    &&& step_matches(res.send, f.send_issues())
    &&& res.device_code_url is None
    &&& res.device_code_user_code is None
}

/// Whether `new` is the page `old` once the failed submission `result`,
/// pointing at `first_invalid_field`, is reported.
pub open spec fn failure_applied(
    old: AccountsPage,
    new: AccountsPage,
    result: AccountOperationResult,
    first_invalid_field: usize,
) -> bool {
    let f0 = old.form;
    let last = if f0.spec_field_count() > 0 { f0.spec_field_count() - 1 } else { 0 };
    let focused = AccountFormState {
        last_result: Some(result),
        active_field: if first_invalid_field < last { first_invalid_field } else { last as usize },
        editing_field: false,
        ..f0
    };
    &&& !new.operation_in_flight
    &&& new.status matches Some(st) && st@ =~= result.summary@
    &&& new.last_result == Some(result)
    &&& new.form == (AccountFormState { field_cursor: active_len(focused) as usize, ..focused })
    &&& new.new_account_draft == old.new_account_draft
    &&& new.resume_new_account_draft_prompt_open == old.resume_new_account_draft_prompt_open
    &&& new.refresh_pending == old.refresh_pending
}

} // verus!
