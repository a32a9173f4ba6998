use mxr_tui::mailbox::{
    auto_summary_eligible, build_mail_list_rows, build_mail_list_rows_at, count_words,
    dormant_thread_hint, dormant_thread_hint_at, subscription_summary_to_envelope, SubscriptionSummary,
    ingest_participants_from_envelope, is_automated_sender, normalized_email,
    sane_mail_sort_timestamp_at, Address, Envelope, MailListMode, MessageBody,
};
use std::collections::HashMap;

fn address(name: Option<&str>, email: &str) -> Address {
    Address { name: name.map(str::to_string), email: email.to_string() }
}

fn envelope(id: u128, word_count: u32, from_email: &str) -> Envelope {
    Envelope {
        id,
        thread_id: id + 1000,
        from: address(None, from_email),
        to: vec![],
        cc: vec![],
        subject: "subject".into(),
        snippet: String::new(),
        date: chrono::Utc::now().timestamp(),
        read: false,
        body_word_count: word_count,
    }
}

fn body(message_id: u128, plain: Option<&str>) -> MessageBody {
    MessageBody {
        message_id,
        text_plain: plain.map(str::to_string),
        text_html: None,
        calendar_invite: false,
        attachments: vec![],
    }
}

fn body_with_calendar(message_id: u128) -> MessageBody {
    MessageBody {
        message_id,
        text_plain: Some("Calendar invite payload".into()),
        text_html: None,
        calendar_invite: true,
        attachments: vec![],
    }
}

fn thread_envelope(id: u128, thread_id: u128, subject: &str, date: i64) -> Envelope {
    Envelope {
        id,
        thread_id,
        from: address(None, "sender@example.com"),
        to: vec![],
        cc: vec![],
        subject: subject.into(),
        snippet: String::new(),
        date,
        read: true,
        body_word_count: 0,
    }
}

#[test]
fn long_thread_is_eligible() {
    let envs = vec![envelope(1, 250, "alice@example.com")];
    assert!(auto_summary_eligible(&envs, &HashMap::new()));
}

#[test]
fn short_thread_is_skipped() {
    let envs = vec![envelope(2, 40, "alice@example.com")];
    assert!(!auto_summary_eligible(&envs, &HashMap::new()));
}

#[test]
fn calendar_invite_is_skipped() {
    let env = envelope(3, 500, "alice@example.com");
    let mut bodies = HashMap::new();
    bodies.insert(env.id, body_with_calendar(env.id));
    assert!(!auto_summary_eligible(&[env], &bodies));
}

#[test]
fn single_automated_sender_is_skipped() {
    let envs = vec![envelope(4, 500, "no-reply@stripe.com")];
    assert!(!auto_summary_eligible(&envs, &HashMap::new()));
}

#[test]
fn multi_message_with_automated_sender_still_eligible() {
    let envs = vec![envelope(5, 150, "notifications@github.com"), envelope(6, 150, "alice@example.com")];
    assert!(auto_summary_eligible(&envs, &HashMap::new()));
}

#[test]
fn empty_bodies_when_all_cached_skip() {
    let env = envelope(7, 0, "alice@example.com");
    let mut bodies = HashMap::new();
    bodies.insert(env.id, body(env.id, None));
    assert!(!auto_summary_eligible(&[env], &bodies));
}

#[test]
fn empty_bodies_partially_cached_falls_through_to_word_count() {
    let envs = vec![envelope(8, 500, "alice@example.com")];
    assert!(auto_summary_eligible(&envs, &HashMap::new()));
}

#[test]
fn cached_body_text_overrides_zero_body_word_count() {
    let env = envelope(9, 0, "alice@example.com");
    let long_text = "word ".repeat(300);
    let mut bodies = HashMap::new();
    bodies.insert(env.id, body(env.id, Some(&long_text)));
    assert!(
        auto_summary_eligible(&[env], &bodies),
        "fallback word count from cached body must override zero column"
    );
}

#[test]
fn build_mail_list_rows_ignores_impossible_future_thread_dates() {
    let thread_id: u128 = 500;
    let poisoned = thread_envelope(102, thread_id, "Poisoned future", 236_816_444_325);
    let recent = thread_envelope(103, thread_id, "Real recent", chrono::Utc::now().timestamp());
    let recent_subject = recent.subject.clone();

    let rows = build_mail_list_rows(&[poisoned, recent], MailListMode::Threads);

    assert_eq!(rows.len(), 1);
    assert_eq!(rows[0].representative.subject, recent_subject);
}

#[test]
fn build_mail_list_rows_counts_other_thread_participants_excluding_representative_from() {
    let thread_id: u128 = 500;
    let t0 = chrono::Utc::now().timestamp();
    let mut alice_first = thread_envelope(104, thread_id, "first", t0);
    alice_first.from = address(Some("Alice"), "alice@example.com");
    alice_first.to = vec![address(None, "bob@example.com")];
    let mut bob_reply = thread_envelope(105, thread_id, "re", t0 + 1);
    bob_reply.from = address(Some("Bob"), "bob@example.com");
    bob_reply.to = vec![address(None, "alice@example.com")];

    let rows = build_mail_list_rows(&[alice_first, bob_reply], MailListMode::Threads);

    assert_eq!(rows.len(), 1);
    assert_eq!(rows[0].message_count, 2);
    assert_eq!(rows[0].representative.from.email, "bob@example.com");
    assert_eq!(rows[0].other_participant_count, 1);
}

#[test]
fn thread_rows_follow_first_appearance_and_count_unread() {
    let now = 1_700_000_000;
    let a: u128 = 600;
    let b: u128 = 601;
    let mut a1 = thread_envelope(106, a, "a1", now - 30);
    a1.read = false;
    let b1 = thread_envelope(107, b, "b1", now - 20);
    let mut a2 = thread_envelope(108, a, "a2", now - 10);
    a2.read = false;
    let b2 = thread_envelope(109, b, "b2", now - 40);
    let rows = build_mail_list_rows_at(&[a1, b1, a2, b2], MailListMode::Threads, now);
    assert_eq!(rows.len(), 2);
    assert_eq!(rows[0].thread_id, a);
    assert_eq!(rows[0].message_count, 2);
    assert_eq!(rows[0].unread_count, 2);
    assert_eq!(rows[0].representative.subject, "a2");
    assert_eq!(rows[1].thread_id, b);
    assert_eq!(rows[1].message_count, 2);
    assert_eq!(rows[1].unread_count, 0);
    assert_eq!(rows[1].representative.subject, "b1");
    let total: usize = rows.iter().map(|r| r.message_count).sum();
    assert_eq!(total, 4);
}

#[test]
fn equal_dates_keep_the_first_message_as_representative() {
    let now = 1_700_000_000;
    let t: u128 = 700;
    let first = thread_envelope(110, t, "first", now - 5);
    let second = thread_envelope(111, t, "second", now - 5);
    let rows = build_mail_list_rows_at(&[first, second], MailListMode::Threads, now);
    assert_eq!(rows[0].representative.subject, "first");
}

#[test]
fn message_rows_keep_each_message() {
    let now = 1_700_000_000;
    let t: u128 = 700;
    let mut unread = thread_envelope(112, t, "unread", now);
    unread.read = false;
    let read = thread_envelope(113, t, "read", now);
    let rows = build_mail_list_rows_at(&[unread, read], MailListMode::Messages, now);
    assert_eq!(rows.len(), 2);
    assert_eq!(rows[0].unread_count, 1);
    assert_eq!(rows[1].unread_count, 0);
    assert_eq!(rows[0].message_count, 1);
    assert_eq!(rows[1].representative.subject, "read");
    assert_eq!(rows[0].other_participant_count, 0);
    assert!(!rows[0].reply_later && !rows[0].pending_mutation);
    assert_eq!(rows[0].open_commitment_count, 0);
}

#[test]
fn empty_envelopes_give_no_rows() {
    assert!(build_mail_list_rows_at(&[], MailListMode::Threads, 0).is_empty());
    assert!(build_mail_list_rows_at(&[], MailListMode::Messages, 0).is_empty());
}

#[test]
fn sane_timestamp_zeroes_dates_beyond_a_day() {
    assert_eq!(sane_mail_sort_timestamp_at(1_000 + 86_400, 1_000), 1_000 + 86_400);
    assert_eq!(sane_mail_sort_timestamp_at(1_000 + 86_401, 1_000), 0);
    assert_eq!(sane_mail_sort_timestamp_at(-5, 1_000), -5);
}

#[test]
fn participants_are_normalized_deduplicated_and_never_empty() {
    let mut e = envelope(10, 0, "  Alice@Example.COM ");
    e.to = vec![address(None, "alice@example.com"), address(None, "   ")];
    e.cc = vec![address(None, "Bob@example.com")];
    let mut set = vec![String::new(), "carol@example.com".to_string()];
    ingest_participants_from_envelope(&e, &mut set);
    set.sort();
    assert_eq!(set, vec!["alice@example.com", "bob@example.com", "carol@example.com"]);
}

#[test]
fn normalized_email_trims_and_lowercases() {
    assert_eq!(normalized_email(&address(None, "  ÀB@Ex.org\t")), "àb@ex.org");
}

#[test]
fn count_words_counts_whitespace_separated_runs() {
    assert_eq!(count_words(""), 0);
    assert_eq!(count_words("   "), 0);
    assert_eq!(count_words("one"), 1);
    assert_eq!(count_words("  two\twords\n"), 2);
    assert_eq!(count_words("a\u{3000}b c"), 3);
}

#[test]
fn automated_senders_are_recognised_by_their_local_part() {
    assert!(is_automated_sender(&address(None, "no-reply@stripe.com")));
    assert!(is_automated_sender(&address(None, " Alerts@bank.example ")));
    assert!(is_automated_sender(&address(None, "mailer-daemon@host")));
    assert!(!is_automated_sender(&address(None, "alice@noreply.com")));
    assert!(!is_automated_sender(&address(None, "@bounce.example")));
    assert!(!is_automated_sender(&address(None, "")));
    assert!(is_automated_sender(&address(None, "postmaster")));
}

#[test]
fn html_body_words_count_when_plain_is_shorter() {
    let env = envelope(11, 0, "alice@example.com");
    let mut b = body(env.id, Some("short"));
    b.text_html = Some("w ".repeat(250));
    let mut bodies = HashMap::new();
    bodies.insert(env.id, b);
    assert!(auto_summary_eligible(&[env], &bodies));
}

#[test]
fn empty_thread_is_not_eligible() {
    assert!(!auto_summary_eligible(&[], &HashMap::new()));
}

#[test]
fn dormant_threads_get_a_briefing_hint() {
    let now = 1_700_000_000;
    let t: u128 = 800;
    let old = now - 45 * 86_400 - 10;
    let envs = vec![
        thread_envelope(120, t, "a", old - 20),
        thread_envelope(121, t, "b", old - 10),
        thread_envelope(122, t, "c", old),
    ];
    let rows = build_mail_list_rows_at(&envs, MailListMode::Threads, now);
    assert_eq!(dormant_thread_hint_at(&rows, 0, now).as_deref(), Some("Dormant 45d. Press B for briefing"));
    assert_eq!(dormant_thread_hint_at(&rows, 1, now), None);
    assert_eq!(dormant_thread_hint_at(&rows, 0, old + 29 * 86_400), None);
    let two = build_mail_list_rows_at(&envs[..2], MailListMode::Threads, now);
    assert_eq!(dormant_thread_hint_at(&two, 0, now), None);
    assert!(dormant_thread_hint(&rows, 0).unwrap().starts_with("Dormant "));
}

#[test]
fn subscriptions_show_their_latest_message() {
    let summary = SubscriptionSummary {
        sender_name: Some("News".into()),
        sender_email: "news@example.com".into(),
        latest_message_id: 42,
        latest_thread_id: 43,
        latest_subject: "Weekly".into(),
        latest_snippet: "This week".into(),
        latest_date: 1_700_000_000,
        latest_read: false,
    };
    let e = subscription_summary_to_envelope(&summary);
    assert_eq!(e.id, 42);
    assert_eq!(e.thread_id, 43);
    assert_eq!(e.from.name.as_deref(), Some("News"));
    assert_eq!(e.from.email, "news@example.com");
    assert!(e.to.is_empty() && e.cc.is_empty());
    assert_eq!(e.subject, "Weekly");
    assert_eq!(e.snippet, "This week");
    assert_eq!(e.date, 1_700_000_000);
    assert!(!e.read);
    assert_eq!(e.body_word_count, 0);
}
