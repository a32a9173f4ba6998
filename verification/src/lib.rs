//! Decision logic of the mxr terminal mail client: the application state
//! and how each action changes it, which actions each
//! screen accepts, the account form, its validation and the workflow that
//! saves an account, the analytics filters and requests, the mail list,
//! the message view, saved searches, label changes, the sync summary, the
//! daemon connection and the undo window, the keys the modals take, and
//! moving through lists and panes.
use vstd::prelude::*;

pub mod account_form;
pub mod account_workflow;
pub mod action;
pub mod analytics;
pub mod app_state;
pub mod body;
pub mod clock;
pub mod connection;
pub mod input;
pub mod mailbox;
pub mod modal_keys;
pub mod mutation;
pub mod navigation;
pub mod saved_search;
pub mod screen;
pub mod status;
pub mod text;
pub mod view_settings;

verus! {

} // verus!
