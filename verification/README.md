# mxr_tui

The decision logic of the mxr terminal mail client, written in Verus and
proved against its contracts.

- `src/` is the verified library, one module per concern:
  - `action`: the actions and the contexts that accept them;
  - `app_state`: the application state and `apply`, which clears the
    status bar and hands each action to its group (accounts, palette and
    help, diagnostics, screens, mailbox, message view, analytics
    settings); work for the daemon or the editor comes back as requests,
    and actions on state the library does not hold are handed back;
  - `screen`, `input`: the tabs, the snooze presets, the key events the
    screens read and the mail action keys;
  - `modal_keys`: the modals that take the keyboard (error, account
    setup, help, feature tour) and the send and bulk-action prompts;
  - `navigation`: the list cursors, the panes, `Back` and `OpenSelected`;
  - `account_form`, `account_workflow`: the account form (fields,
    editing, validation, the configuration it produces, its keys) and the
    save workflow that authorizes, saves and tests an account (Gmail and
    IMAP/SMTP accounts; the form has no Outlook mode);
  - `analytics`: the views, the filter modal and the daemon requests;
  - `mailbox`: thread rows, participants, automatic summaries;
  - `body`, `mutation`, `saved_search`, `status`, `connection`: the
    message view (which body it shows and its labels), label changes,
    saved searches, the sync summary, the daemon connection, raising a
    reported error to the error modal, and the undo window;
  - `view_settings`: the message view's settings (HTML or text, the
    reading view, remote images, the signature);
  - `text`, `clock`: character-level helpers, and the clock and calendar
    (through `chrono`).
- `tests/` runs the library on concrete values.
- `app/` holds the glue that stays outside the proofs: key events from
  `crossterm`, monotonic clock readings, the loop that drives the
  account save workflow, and placing a snooze on the local calendar.
