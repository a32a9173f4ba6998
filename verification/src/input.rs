//! Keyboard events as the screens read them.
use vstd::prelude::*;
use crate::action::Action;

verus! {

/// Bit of the shift key in a modifier set.
pub const SHIFT_BIT: u8 = 1;

/// Bit of the control key in a modifier set.
pub const CONTROL_BIT: u8 = 2;

/// Bit of the alt key in a modifier set.
pub const ALT_BIT: u8 = 4;

/// The modifier keys held with a key press, one bit per key (shift,
/// control, alt, super, hyper, meta from the lowest bit up).
#[derive(Debug, Clone, Copy, PartialEq, Eq, Structural)]
pub struct KeyModifiers {
    pub bits: u8,
}

impl KeyModifiers {
    /// No modifier held.
    pub fn none() -> (m: KeyModifiers)
        ensures
            m.bits == 0,
    {
        KeyModifiers { bits: 0 }
    }

    /// Shift alone.
    pub fn shift() -> (m: KeyModifiers)
        ensures
            m.bits == SHIFT_BIT,
    {
        KeyModifiers { bits: SHIFT_BIT }
    }
}

/// The keys the screens tell apart; every other key is `Other`.
#[derive(Debug, Clone, Copy, PartialEq, Eq, Structural)]
pub enum KeyCode {
    Char(char),
    Enter,
    Esc,
    Tab,
    BackTab,
    Left,
    Right,
    Up,
    Down,
    Home,
    End,
    Backspace,
    Delete,
    PageUp,
    PageDown,
    Other,
}

/// A key press together with its modifiers.
#[derive(Debug, Clone, Copy, PartialEq, Eq, Structural)]
pub struct KeyEvent {
    pub code: KeyCode,
    pub modifiers: KeyModifiers,
}

/// No modifier, or shift alone: the modifiers under which a character
/// key types its character.
pub open spec fn is_plain_or_shift(m: KeyModifiers) -> bool {
    m.bits == 0 || m.bits == SHIFT_BIT
}

/// Whether a key was pressed with no modifier or with shift alone.
pub fn plain_or_shift(modifiers: KeyModifiers) -> (b: bool)
    ensures
        b == is_plain_or_shift(modifiers),
{
    modifiers.bits == 0 || modifiers.bits == SHIFT_BIT
}

/// The mail action a key asks for in a mail view: lower-case letters
/// with no modifier, capitals with no modifier or shift alone, `#` and
/// `!` with any modifiers.
pub open spec fn mail_key_action(key: KeyEvent) -> Option<Action> {
    match key.code {
        KeyCode::Char(k) => {
            if k == 'c' && key.modifiers.bits == 0 {
                Some(Action::Compose)
            } else if k == 'r' && key.modifiers.bits == 0 {
                Some(Action::Reply)
            } else if k == 'a' && key.modifiers.bits == 0 {
                Some(Action::ReplyAll)
            } else if k == 'f' && key.modifiers.bits == 0 {
                Some(Action::Forward)
            } else if k == 'e' && key.modifiers.bits == 0 {
                Some(Action::Archive)
            } else if k == 'm' && key.modifiers.bits == 0 {
                Some(Action::MarkReadAndArchive)
            } else if k == '#' {
                Some(Action::Trash)
            } else if k == '!' {
                Some(Action::Spam)
            } else if k == 's' && key.modifiers.bits == 0 {
                Some(Action::Star)
            } else if k == 'I' && is_plain_or_shift(key.modifiers) {
                Some(Action::MarkRead)
            } else if k == 'U' && is_plain_or_shift(key.modifiers) {
                Some(Action::MarkUnread)
            } else if k == 'l' && key.modifiers.bits == 0 {
                Some(Action::ApplyLabel)
            } else if k == 'v' && key.modifiers.bits == 0 {
                Some(Action::MoveToLabel)
            } else if k == 'D' && is_plain_or_shift(key.modifiers) {
                Some(Action::Unsubscribe)
            } else if k == 'Z' && is_plain_or_shift(key.modifiers) {
                Some(Action::Snooze)
            } else if k == 'O' && is_plain_or_shift(key.modifiers) {
                Some(Action::OpenInBrowser)
            } else if k == 'R' && is_plain_or_shift(key.modifiers) {
                Some(Action::ToggleReaderMode)
            } else if k == 'S' && is_plain_or_shift(key.modifiers) {
                Some(Action::ToggleSignature)
            } else if k == 'A' && is_plain_or_shift(key.modifiers) {
                Some(Action::AttachmentList)
            } else if k == 'L' && is_plain_or_shift(key.modifiers) {
                Some(Action::OpenLinks)
            } else if k == 'E' && is_plain_or_shift(key.modifiers) {
                Some(Action::ExportThread)
            } else {
                None
            }
        },
        _ => None,
    }
}

/// The mail action bound to a key, if any.
pub fn mail_action_key(key: KeyEvent) -> (a: Option<Action>)
    ensures
        a == mail_key_action(key),
{
    let none = key.modifiers.bits == 0;
    let shifted = plain_or_shift(key.modifiers);
    match key.code {
        KeyCode::Char(k) => {
            if k == 'c' && none {
                Some(Action::Compose)
            } else if k == 'r' && none {
                Some(Action::Reply)
            } else if k == 'a' && none {
                Some(Action::ReplyAll)
            } else if k == 'f' && none {
                Some(Action::Forward)
            } else if k == 'e' && none {
                Some(Action::Archive)
            } else if k == 'm' && none {
                Some(Action::MarkReadAndArchive)
            } else if k == '#' {
                Some(Action::Trash)
            } else if k == '!' {
                Some(Action::Spam)
            } else if k == 's' && none {
                Some(Action::Star)
            } else if k == 'I' && shifted {
                Some(Action::MarkRead)
            } else if k == 'U' && shifted {
                Some(Action::MarkUnread)
            } else if k == 'l' && none {
                Some(Action::ApplyLabel)
            } else if k == 'v' && none {
                Some(Action::MoveToLabel)
            } else if k == 'D' && shifted {
                Some(Action::Unsubscribe)
            } else if k == 'Z' && shifted {
                Some(Action::Snooze)
            } else if k == 'O' && shifted {
                Some(Action::OpenInBrowser)
            } else if k == 'R' && shifted {
                Some(Action::ToggleReaderMode)
            } else if k == 'S' && shifted {
                Some(Action::ToggleSignature)
            } else if k == 'A' && shifted {
                Some(Action::AttachmentList)
            } else if k == 'L' && shifted {
                Some(Action::OpenLinks)
            } else if k == 'E' && shifted {
                Some(Action::ExportThread)
            } else {
                None
            }
        },
        _ => None,
    }
}

} // verus!
