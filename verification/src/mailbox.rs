//! The mail list: envelopes grouped into rows, one per message or one
//! per thread, the people taking part in a thread, and whether a thread
//! is worth summarising on its own.
use vstd::prelude::*;
use std::collections::HashMap;
use crate::body::AttachmentMeta;
use crate::clock::{utc_now, MIN_UTC_TIMESTAMP, MAX_UTC_TIMESTAMP};
use crate::text::{
    trim_str, str_eq, trim, chars_of, char_is_ws, is_ws, ascii_lowercase, ascii_lowercase_str,
    contains, contains_chars, string_of, to_lowercase, lowercase_of, concat3, u64_to_decimal,
    decimal,
};

verus! {

broadcast use vstd::string::group_string_axioms;

/// Identifier of a message (a UUID, held as its 128 bits).
pub type MessageId = u128;

/// Identifier of a thread (a UUID, held as its 128 bits).
pub type ThreadId = u128;

/// A mail address with its optional display name.
pub struct Address {
    pub name: Option<String>,
    pub email: String,
}

impl Address {
    /// A copy of the address.
    pub fn duplicate(&self) -> (r: Self)
        ensures
            r == *self,
    {
        let name = match &self.name {
            Some(n) => Some(n.clone()),
            None => None,
        };
        Address { name, email: self.email.clone() }
    }
}

/// A copy of a list of addresses.
pub fn duplicate_addresses(v: &Vec<Address>) -> (r: Vec<Address>)
    ensures
        r@ == v@,
{
    let mut r: Vec<Address> = Vec::new();
    let mut i: usize = 0;
    while i < v.len()
        invariant
            i <= v.len(),
            r@ == v@.take(i as int),
        decreases v.len() - i,
    {
        r.push(v[i].duplicate());
        i = i + 1;
        assert(r@ =~= v@.take(i as int));
    }
    assert(v@.take(v.len() as int) =~= v@);
    r
}

/// What the mail list knows of a message.
pub struct Envelope {
    pub id: MessageId,
    pub thread_id: ThreadId,
    pub from: Address,
    pub to: Vec<Address>,
    pub cc: Vec<Address>,
    pub subject: String,
    /// The opening words of the body, as the list previews them.
    pub snippet: String,
    /// The message date, as a Unix timestamp in seconds.
    pub date: i64,
    /// Whether the message carries the read flag.
    pub read: bool,
    /// Number of words in the body, as counted when the message was
    /// synchronised (0 where it was not counted).
    pub body_word_count: u32,
}

/// Whether two envelopes hold the same values.
pub open spec fn same_envelope(a: Envelope, b: Envelope) -> bool {
    &&& a.id == b.id
    &&& a.thread_id == b.thread_id
    &&& a.from == b.from
    &&& a.to@ == b.to@
    &&& a.cc@ == b.cc@
    &&& a.subject == b.subject
    &&& a.snippet == b.snippet
    &&& a.date == b.date
    &&& a.read == b.read
    &&& a.body_word_count == b.body_word_count
}

impl Envelope {
    /// A copy of the envelope.
    pub fn duplicate(&self) -> (r: Self)
        ensures
            same_envelope(r, *self),
    {
        Envelope {
            id: self.id,
            thread_id: self.thread_id,
            from: self.from.duplicate(),
            to: duplicate_addresses(&self.to),
            cc: duplicate_addresses(&self.cc),
            subject: self.subject.clone(),
            snippet: self.snippet.clone(),
            date: self.date,
            read: self.read,
            body_word_count: self.body_word_count,
        }
    }
}

/// A sender the subscriptions view lists, with its latest message.
pub struct SubscriptionSummary {
    pub sender_name: Option<String>,
    pub sender_email: String,
    pub latest_message_id: MessageId,
    pub latest_thread_id: ThreadId,
    pub latest_subject: String,
    pub latest_snippet: String,
    /// The latest message's date, as a Unix timestamp in seconds.
    pub latest_date: i64,
    /// Whether the latest message carries the read flag.
    pub latest_read: bool,
}

/// The latest message of a subscription as the mail list shows it: from
/// the sender, to nobody listed, with no word count.
pub fn subscription_summary_to_envelope(summary: &SubscriptionSummary) -> (e: Envelope)
    ensures
        e.id == summary.latest_message_id,
        e.thread_id == summary.latest_thread_id,
        e.from == (Address { name: summary.sender_name, email: summary.sender_email }),
        e.to@.len() == 0 && e.cc@.len() == 0,
        e.subject == summary.latest_subject,
        e.snippet == summary.latest_snippet,
        e.date == summary.latest_date,
        e.read == summary.latest_read,
        e.body_word_count == 0,
{
    let name = match &summary.sender_name {
        Some(n) => Some(n.clone()),
        None => None,
    };
    Envelope {
        id: summary.latest_message_id,
        thread_id: summary.latest_thread_id,
        from: Address { name, email: summary.sender_email.clone() },
        to: Vec::new(),
        cc: Vec::new(),
        subject: summary.latest_subject.clone(),
        snippet: summary.latest_snippet.clone(),
        date: summary.latest_date,
        read: summary.latest_read,
        body_word_count: 0,
    }
}

// ---------------------------------------------------------------------
// Participants
// ---------------------------------------------------------------------

/// The address in the form participants are compared by: trimmed and
/// lower-cased.
pub open spec fn normalized(a: Address) -> Seq<char> {
    lowercase_of(trim(a.email@))
}

/// The normalized address.
pub fn normalized_email(addr: &Address) -> (r: String)
    ensures
        r@ == normalized(*addr),
{
    let t = trim_str(addr.email.as_str());
    to_lowercase(t.as_str())
}

/// The non-empty normalized addresses among `addrs`.
pub open spec fn emails_of(addrs: Seq<Address>) -> Set<Seq<char>> {
    addrs.map_values(|a: Address| normalized(a)).to_set().filter(|s: Seq<char>| s.len() > 0)
}

/// Every address an envelope names: sender, recipients, copies.
pub open spec fn envelope_addresses(e: Envelope) -> Seq<Address> {
    seq![e.from] + e.to@ + e.cc@
}

/// The non-empty normalized addresses an envelope names.
pub open spec fn envelope_emails(e: Envelope) -> Set<Seq<char>> {
    emails_of(envelope_addresses(e))
}

/// The characters of each string.
pub open spec fn string_views(v: Seq<String>) -> Seq<Seq<char>> {
    v.map_values(|s: String| s@)
}

/// The set of strings a list holds.
pub open spec fn string_set(v: Seq<String>) -> Set<Seq<char>> {
    string_views(v).to_set()
}

/// A list of distinct, non-empty strings: the shape of a set of
/// participants.
pub open spec fn participant_list(v: Seq<String>) -> bool {
    &&& string_views(v).no_duplicates()
    &&& forall|i: int| 0 <= i < v.len() ==> (#[trigger] v[i])@.len() > 0
}

/// Whether a list of strings holds `s`.
fn holds_string(v: &Vec<String>, s: &str) -> (b: bool)
    ensures
        b == string_set(v@).contains(s@),
{
    let mut i: usize = 0;
    while i < v.len()
        invariant
            i <= v.len(),
            forall|k: int| 0 <= k < i ==> (#[trigger] v@[k])@ != s@,
        decreases v.len() - i,
    {
        if str_eq(v[i].as_str(), s) {
            assert(string_views(v@)[i as int] == s@);
            return true;
        }
        i = i + 1;
    }
    assert forall|k: int| 0 <= k < string_views(v@).len() implies string_views(v@)[k] != s@ by {
        assert(string_views(v@)[k] == v@[k]@);
    }
    false
}

/// Adds a participant to the list, unless it is empty or already there.
fn insert_participant(into: &mut Vec<String>, s: String)
    requires
        participant_list(old(into)@),
    ensures
        participant_list(final(into)@),
        string_set(final(into)@) == if s@.len() > 0 {
            string_set(old(into)@).insert(s@)
        } else {
            string_set(old(into)@)
        },
{
    if s.unicode_len() == 0 {
        return;
    }
    if holds_string(into, s.as_str()) {
        assert(string_set(old(into)@).insert(s@) =~= string_set(old(into)@));
        return;
    }
    let ghost before = into@;
    into.push(s);
    proof {
        assert(string_views(into@) =~= string_views(before).push(s@));
        string_views(before).lemma_push_to_set_commute(s@);
        assert(!string_views(before).contains(s@));
        assert forall|i: int, j: int|
            0 <= i < string_views(into@).len() && 0 <= j < string_views(into@).len() && i != j
            implies string_views(into@)[i] != string_views(into@)[j] by {
            if i < before.len() && j < before.len() {
                assert(string_views(before)[i] == string_views(into@)[i]);
                assert(string_views(before)[j] == string_views(into@)[j]);
            } else if i < before.len() {
                assert(string_views(before)[i] == string_views(into@)[i]);
            } else if j < before.len() {
                assert(string_views(before)[j] == string_views(into@)[j]);
            }
        }
    }
}

/// Adds the non-empty normalized addresses of `addrs` to the list.
fn insert_participants(into: &mut Vec<String>, addrs: &Vec<Address>)
    requires
        participant_list(old(into)@),
    ensures
        participant_list(final(into)@),
        string_set(final(into)@) == string_set(old(into)@) + emails_of(addrs@),
{
    let ghost start = string_set(into@);
    let mut i: usize = 0;
    while i < addrs.len()
        invariant
            i <= addrs.len(),
            participant_list(into@),
            string_set(into@) == start + emails_of(addrs@.take(i as int)),
        decreases addrs.len() - i,
    {
        let e = normalized_email(&addrs[i]);
        let ghost t = addrs@.take(i as int);
        insert_participant(into, e);
        proof {
            let f = |a: Address| normalized(a);
            assert(addrs@.take(i + 1) =~= t.push(addrs@[i as int]));
            assert(t.push(addrs@[i as int]).map_values(f) =~= t.map_values(f).push(
                normalized(addrs@[i as int]),
            ));
            t.map_values(f).lemma_push_to_set_commute(normalized(addrs@[i as int]));
        }
        i = i + 1;
        assert(string_set(into@) =~= start + emails_of(addrs@.take(i as int)));
    }
    assert(addrs@.take(addrs.len() as int) =~= addrs@);
}

proof fn lemma_envelope_emails(e: Envelope)
    ensures
        envelope_emails(e) == emails_of(seq![e.from]) + emails_of(e.to@) + emails_of(e.cc@),
{
    let f = |a: Address| normalized(a);
    let a = seq![e.from];
    assert(envelope_addresses(e) == a + e.to@ + e.cc@);
    assert((a + e.to@ + e.cc@).map_values(f) =~= a.map_values(f) + e.to@.map_values(f)
        + e.cc@.map_values(f));
    vstd::seq_lib::seq_to_set_distributes_over_add(
        a.map_values(f) + e.to@.map_values(f),
        e.cc@.map_values(f),
    );
    vstd::seq_lib::seq_to_set_distributes_over_add(a.map_values(f), e.to@.map_values(f));
    assert(envelope_emails(e) =~= emails_of(a) + emails_of(e.to@) + emails_of(e.cc@));
}

/// Adds the participants of an envelope (sender, recipients, copies) to
/// a set of participants held as a list of distinct strings, and drops
/// the empty address from it.
pub fn ingest_participants_from_envelope(envelope: &Envelope, into: &mut Vec<String>)
    requires
        string_views(old(into)@).no_duplicates(),
    ensures
        participant_list(final(into)@),
        string_set(final(into)@) == (string_set(old(into)@) + envelope_emails(*envelope)).filter(
            |s: Seq<char>| s.len() > 0,
        ),
{
    let ghost start = into@;
    let mut kept: Vec<String> = Vec::new();
    let mut i: usize = 0;
    while i < into.len()
        invariant
            i <= into.len(),
            into@ == start,
            string_views(start).no_duplicates(),
            participant_list(kept@),
            string_set(kept@) == string_set(start.take(i as int)).filter(|s: Seq<char>| s.len() > 0),
        decreases into.len() - i,
    {
        let ghost t = start.take(i as int);
        assert(start.take(i + 1) =~= t.push(start[i as int]));
        assert(string_views(t.push(start[i as int])) =~= string_views(t).push(start[i as int]@));
        proof {
            string_views(t).lemma_push_to_set_commute(start[i as int]@);
        }
        insert_participant(&mut kept, into[i].clone());
        i = i + 1;
        assert(string_set(kept@) =~= string_set(start.take(i as int)).filter(
            |s: Seq<char>| s.len() > 0,
        ));
    }
    assert(start.take(start.len() as int) =~= start);
    let ghost filtered = string_set(kept@);
    let mut from_list: Vec<Address> = Vec::new();
    from_list.push(envelope.from.duplicate());
    assert(from_list@ =~= seq![envelope.from]);
    insert_participants(&mut kept, &from_list);
    insert_participants(&mut kept, &envelope.to);
    insert_participants(&mut kept, &envelope.cc);
    proof {
        lemma_envelope_emails(*envelope);
        assert(string_set(kept@) =~= (string_set(start) + envelope_emails(*envelope)).filter(
            |s: Seq<char>| s.len() > 0,
        ));
    }
    *into = kept;
}


// ---------------------------------------------------------------------
// Words and senders
// ---------------------------------------------------------------------

/// Number of words of a text: maximal runs of characters that are not
/// whitespace.
pub open spec fn word_count(s: Seq<char>) -> nat
    decreases s.len(),
{
    if s.len() == 0 {
        0
    } else {
        let before = word_count(s.drop_last());
        if !is_ws(s.last()) && (s.len() == 1 || is_ws(s[s.len() - 2])) {
            before + 1
        } else {
            before
        }
    }
}

/// A count held in a `u32`: the largest `u32` stands for every larger
/// count.
pub open spec fn capped(n: nat) -> nat {
    if n > u32::MAX {
        u32::MAX as nat
    } else {
        n
    }
}

/// Number of whitespace-separated words of a text, capped at `u32::MAX`.
pub fn count_words(text: &str) -> (r: u32)
    ensures
        r == capped(word_count(text@)),
{
    let v = chars_of(text);
    let mut n: usize = 0;
    let mut i: usize = 0;
    while i < v.len()
        invariant
            i <= v.len(),
            v@ == text@,
            n <= i,
            n == word_count(v@.take(i as int)),
        decreases v.len() - i,
    {
        let starts = !char_is_ws(v[i]) && (i == 0 || char_is_ws(v[i - 1]));
        let ghost t = v@.take(i as int + 1);
        assert(t.drop_last() =~= v@.take(i as int));
        assert(t.last() == v@[i as int]);
        if i > 0 {
            assert(t[t.len() - 2] == v@[i - 1]);
        }
        if starts {
            n = n + 1;
        }
        i = i + 1;
    }
    assert(v@.take(v.len() as int) =~= v@);
    if n > 4294967295 {
        u32::MAX
    } else {
        n as u32
    }
}

/// Position of the first `@` of a text, or its length where it has none.
pub open spec fn first_at(s: Seq<char>) -> nat
    decreases s.len(),
{
    if s.len() == 0 {
        0
    } else if s[0] == '@' {
        0
    } else {
        1 + first_at(s.drop_first())
    }
}

/// The part of an address before its first `@` (all of it without one).
pub open spec fn local_part(s: Seq<char>) -> Seq<char> {
    s.take(first_at(s) as int)
}

proof fn lemma_first_at(s: Seq<char>, k: int)
    requires
        0 <= k <= s.len(),
        forall|j: int| 0 <= j < k ==> s[j] != '@',
        k == s.len() || s[k] == '@',
    ensures
        first_at(s) == k,
    decreases k,
{
    if k > 0 {
        lemma_first_at(s.drop_first(), k - 1);
    }
}

/// Address parts that mark a sender as automated.
pub open spec fn auto_sender_patterns() -> Seq<Seq<char>> {
    seq![
        "noreply"@,
        "no-reply"@,
        "donotreply"@,
        "do-not-reply"@,
        "notifications"@,
        "notification"@,
        "alerts"@,
        "automated"@,
        "mailer-daemon"@,
        "postmaster"@,
        "bounce"@,
    ]
}

/// Whether a sender looks automated: the part before the `@` of its
/// trimmed, ASCII lower-cased address is not empty and contains one of
/// the patterns.
pub open spec fn is_automated(a: Address) -> bool {
    let local = local_part(ascii_lowercase(trim(a.email@)));
    &&& local.len() > 0
    &&& exists|i: int| 0 <= i < auto_sender_patterns().len() && #[trigger] contains(
        local,
        auto_sender_patterns()[i],
    )
}

fn sender_patterns() -> (v: Vec<&'static str>)
    ensures
        v@.map_values(|p: &str| p@) == auto_sender_patterns(),
{
    let v = vec![
        "noreply",
        "no-reply",
        "donotreply",
        "do-not-reply",
        "notifications",
        "notification",
        "alerts",
        "automated",
        "mailer-daemon",
        "postmaster",
        "bounce",
    ];
    assert(v@.map_values(|p: &str| p@) =~= auto_sender_patterns());
    v
}

/// Whether a sender looks automated (a notification or bounce address).
pub fn is_automated_sender(addr: &Address) -> (b: bool)
    ensures
        b == is_automated(*addr),
{
    let t = trim_str(addr.email.as_str());
    let email = ascii_lowercase_str(t.as_str());
    let chars = chars_of(email.as_str());
    let mut k: usize = 0;
    while k < chars.len() && chars[k] != '@'
        invariant
            k <= chars.len(),
            forall|j: int| 0 <= j < k ==> chars@[j] != '@',
        decreases chars.len() - k,
    {
        k = k + 1;
    }
    proof {
        lemma_first_at(chars@, k as int);
    }
    let ghost local = local_part(ascii_lowercase(trim(addr.email@)));
    if k == 0 {
        return false;
    }
    let local_chars = string_of(&chars.as_slice()[0..k]);
    assert(local_chars@ =~= local);
    let lv = chars_of(local_chars.as_str());
    let patterns = sender_patterns();
    let mut i: usize = 0;
    while i < patterns.len()
        invariant
            i <= patterns.len(),
            lv@ == local,
            local == local_part(ascii_lowercase(trim(addr.email@))),
            local.len() == k,
            k > 0,
            patterns@.map_values(|p: &str| p@) == auto_sender_patterns(),
            forall|j: int| 0 <= j < i ==> !#[trigger] contains(local, auto_sender_patterns()[j]),
        decreases patterns.len() - i,
    {
        let pv = chars_of(patterns[i]);
        assert(auto_sender_patterns()[i as int] == patterns@[i as int]@);
        if contains_chars(&lv, &pv) {
            assert(contains(local, auto_sender_patterns()[i as int]));
            assert(local.len() > 0);
            return true;
        }
        i = i + 1;
    }
    false
}


// ---------------------------------------------------------------------
// Automatic summaries
// ---------------------------------------------------------------------

/// A fetched message body.
pub struct MessageBody {
    pub message_id: MessageId,
    pub text_plain: Option<String>,
    pub text_html: Option<String>,
    /// Whether the message carries calendar metadata (an invitation, a
    /// reply to one, a cancellation).
    pub calendar_invite: bool,
    pub attachments: Vec<AttachmentMeta>,
}

/// Fewest words a thread needs to be summarised on its own: about a
/// minute of reading.
pub const AUTO_SUMMARY_MIN_WORDS: u32 = 200;

/// Words of an optional text, capped at `u32::MAX`; none without text.
pub open spec fn text_words(t: Option<String>) -> nat {
    match t {
        Some(s) => capped(word_count(s@)),
        None => 0,
    }
}

/// Words of a fetched body: those of its plain or of its HTML text,
/// whichever has more.
pub open spec fn body_words(b: MessageBody) -> nat {
    let p = text_words(b.text_plain);
    let h = text_words(b.text_html);
    if p >= h {
        p
    } else {
        h
    }
}

/// Sum of the synchronised word counts of the envelopes.
pub open spec fn synced_words(envs: Seq<Envelope>) -> nat
    decreases envs.len(),
{
    if envs.len() == 0 {
        0
    } else {
        synced_words(envs.drop_last()) + envs.last().body_word_count as nat
    }
}

/// Sum of the words of the fetched bodies of the envelopes.
pub open spec fn fetched_words(envs: Seq<Envelope>, cache: Map<MessageId, MessageBody>) -> nat
    decreases envs.len(),
{
    if envs.len() == 0 {
        0
    } else {
        let e = envs.last();
        fetched_words(envs.drop_last(), cache) + if cache.contains_key(e.id) {
            body_words(cache[e.id])
        } else {
            0
        }
    }
}

/// Whether the body of envelope `i` has been fetched and is a calendar
/// message.
pub open spec fn fetched_calendar(envs: Seq<Envelope>, cache: Map<MessageId, MessageBody>, i: int) -> bool {
    0 <= i < envs.len() && cache.contains_key(envs[i].id) && cache[envs[i].id].calendar_invite
}

/// Whether the body of envelope `i` has been fetched and has a word.
pub open spec fn fetched_text(envs: Seq<Envelope>, cache: Map<MessageId, MessageBody>, i: int) -> bool {
    0 <= i < envs.len() && cache.contains_key(envs[i].id) && body_words(cache[envs[i].id]) > 0
}

/// Whether some fetched body is a calendar message.
pub open spec fn has_calendar_body(envs: Seq<Envelope>, cache: Map<MessageId, MessageBody>) -> bool {
    exists|i: int| #[trigger] fetched_calendar(envs, cache, i)
}

/// Whether some fetched body has a word.
pub open spec fn has_body_text(envs: Seq<Envelope>, cache: Map<MessageId, MessageBody>) -> bool {
    exists|i: int| #[trigger] fetched_text(envs, cache, i)
}

/// Whether the body of every envelope has been fetched.
pub open spec fn all_fetched(envs: Seq<Envelope>, cache: Map<MessageId, MessageBody>) -> bool {
    forall|i: int| 0 <= i < envs.len() ==> cache.contains_key(#[trigger] envs[i].id)
}

/// Whether a thread is worth summarising on its own: it has messages,
/// none of its fetched bodies is a calendar message, it is not known to
/// be without text (all bodies fetched, none with a word), it is not a
/// single message from an automated sender, and its synchronised word
/// count or the words of its fetched bodies (each sum capped at
/// `u32::MAX`) reach `AUTO_SUMMARY_MIN_WORDS`.
pub open spec fn summary_eligible(envs: Seq<Envelope>, cache: Map<MessageId, MessageBody>) -> bool {
    if envs.len() == 0 {
        false
    } else if has_calendar_body(envs, cache) {
        false
    } else if all_fetched(envs, cache) && !has_body_text(envs, cache) {
        false
    } else if envs.len() == 1 && is_automated(envs[0].from) {
        false
    } else {
        capped(synced_words(envs)) >= AUTO_SUMMARY_MIN_WORDS || capped(fetched_words(envs, cache))
            >= AUTO_SUMMARY_MIN_WORDS
    }
}

fn optional_text_words(t: &Option<String>) -> (r: u32)
    ensures
        r == text_words(*t),
{
    match t {
        Some(s) => count_words(s.as_str()),
        None => 0,
    }
}

/// Whether a thread is worth summarising without being asked.
pub fn auto_summary_eligible(envelopes: &[Envelope], body_cache: &HashMap<MessageId, MessageBody>) -> (b: bool)
    ensures
        b == summary_eligible(envelopes@, body_cache@),
{
    broadcast use vstd::std_specs::hash::group_hash_axioms;

    let ghost envs = envelopes@;
    let ghost cache = body_cache@;
    if envelopes.len() == 0 {
        return false;
    }
    let mut total_words: u32 = 0;
    let mut body_text_words: u32 = 0;
    let mut any_body_text = false;
    let mut i: usize = 0;
    while i < envelopes.len()
        invariant
            i <= envelopes.len(),
            envs == envelopes@,
            cache == body_cache@,
            total_words == capped(synced_words(envs.take(i as int))),
            body_text_words == capped(fetched_words(envs.take(i as int), cache)),
            any_body_text == has_body_text(envs.take(i as int), cache),
            !has_calendar_body(envs.take(i as int), cache),
        decreases envelopes.len() - i,
    {
        let envelope = &envelopes[i];
        let ghost t = envs.take(i as int);
        let ghost u = envs.take(i as int + 1);
        assert(u.drop_last() =~= t);
        assert(u.last() == envs[i as int]);
        assert forall|j: int| 0 <= j < i implies #[trigger] u[j] == t[j] by {}
        total_words = total_words.saturating_add(envelope.body_word_count);
        match body_cache.get(&envelope.id) {
            Some(body) => {
                if body.calendar_invite {
                    assert(fetched_calendar(envs, cache, i as int));
                    assert(has_calendar_body(envs, cache));
                    return false;
                }
                let plain_words = optional_text_words(&body.text_plain);
                let html_words = optional_text_words(&body.text_html);
                let cached_words = if plain_words >= html_words {
                    plain_words
                } else {
                    html_words
                };
                body_text_words = body_text_words.saturating_add(cached_words);
                if cached_words > 0 {
                    any_body_text = true;
                    assert(fetched_text(u, cache, i as int));
                }
                assert(!fetched_calendar(u, cache, i as int));
                assert(has_body_text(u, cache) == (has_body_text(t, cache) || body_words(cache[envs[i as int].id]) > 0)) by {
                    if has_body_text(u, cache) {
                        let j = choose|j: int| #[trigger] fetched_text(u, cache, j);
                        if j < i {
                            assert(fetched_text(t, cache, j));
                        }
                    }
                    if has_body_text(t, cache) {
                        let j = choose|j: int| #[trigger] fetched_text(t, cache, j);
                        assert(fetched_text(u, cache, j));
                    }
                }
                assert(!has_calendar_body(u, cache)) by {
                    if has_calendar_body(u, cache) {
                        let j = choose|j: int| #[trigger] fetched_calendar(u, cache, j);
                        assert(fetched_calendar(t, cache, j));
                    }
                }
            },
            None => {
                assert(has_body_text(u, cache) == has_body_text(t, cache)) by {
                    if has_body_text(u, cache) {
                        let j = choose|j: int| #[trigger] fetched_text(u, cache, j);
                        assert(fetched_text(t, cache, j));
                    }
                    if has_body_text(t, cache) {
                        let j = choose|j: int| #[trigger] fetched_text(t, cache, j);
                        assert(fetched_text(u, cache, j));
                    }
                }
                assert(!has_calendar_body(u, cache)) by {
                    if has_calendar_body(u, cache) {
                        let j = choose|j: int| #[trigger] fetched_calendar(u, cache, j);
                        assert(fetched_calendar(t, cache, j));
                    }
                }
            },
        }
        i = i + 1;
    }
    assert(envs.take(envelopes.len() as int) =~= envs);
    let mut all_cached = true;
    let mut k: usize = 0;
    while k < envelopes.len()
        invariant
            k <= envelopes.len(),
            envs == envelopes@,
            cache == body_cache@,
            all_cached == (forall|j: int| 0 <= j < k ==> cache.contains_key(#[trigger] envs[j].id)),
        decreases envelopes.len() - k,
    {
        if !body_cache.contains_key(&envelopes[k].id) {
            all_cached = false;
        }
        k = k + 1;
    }
    if all_cached && !any_body_text {
        return false;
    }
    if envelopes.len() == 1 && is_automated_sender(&envelopes[0].from) {
        return false;
    }
    let effective_words = if total_words >= body_text_words {
        total_words
    } else {
        body_text_words
    };
    effective_words >= AUTO_SUMMARY_MIN_WORDS
}


// ---------------------------------------------------------------------
// Mail list rows
// ---------------------------------------------------------------------

/// Whether the mail list shows one row per message or one per thread.
#[derive(Clone, Copy, Debug, PartialEq, Eq, Structural)]
pub enum MailListMode {
    Threads,
    Messages,
}

/// One row of the mail list.
pub struct MailListRow {
    pub thread_id: ThreadId,
    /// The message the row shows: for a thread, its latest.
    pub representative: Envelope,
    pub message_count: usize,
    pub unread_count: usize,
    /// People taking part in the thread besides the sender of the
    /// representative message.
    pub other_participant_count: usize,
    pub open_commitment_count: usize,
    pub reply_later: bool,
    pub pending_mutation: bool,
}

/// The date a message is ordered by at instant `now`: a date more than a
/// day ahead of `now` cannot be real and counts as 0.
pub open spec fn sane_timestamp(date: i64, now: i64) -> int {
    if date > now + 86400 {
        0
    } else {
        date as int
    }
}

/// The date a message is ordered by, at instant `now`.
pub fn sane_mail_sort_timestamp_at(date: i64, now: i64) -> (r: i64)
    requires
        now <= MAX_UTC_TIMESTAMP,
    ensures
        r == sane_timestamp(date, now),
{
    let cutoff = now + 86400;
    if date > cutoff {
        0
    } else {
        date
    }
}

/// The date a message is ordered by, at the current instant.
pub fn sane_mail_sort_timestamp(date: i64) -> (r: i64)
    ensures
        exists|now: i64| crate::clock::clock_reading(now as int) && r == #[trigger] sane_timestamp(date, now),
{
    let (now, _) = utc_now();
    let r = sane_mail_sort_timestamp_at(date, now);
    assert(r == sane_timestamp(date, now));
    r
}

/// The threads of the envelopes, in the order of their first message.
pub open spec fn thread_order(envs: Seq<Envelope>) -> Seq<ThreadId>
    decreases envs.len(),
{
    if envs.len() == 0 {
        seq![]
    } else {
        let before = thread_order(envs.drop_last());
        if before.contains(envs.last().thread_id) {
            before
        } else {
            before.push(envs.last().thread_id)
        }
    }
}

/// The messages of thread `t`, in order.
pub open spec fn thread_messages(envs: Seq<Envelope>, t: ThreadId) -> Seq<Envelope>
    decreases envs.len(),
{
    if envs.len() == 0 {
        seq![]
    } else {
        let before = thread_messages(envs.drop_last(), t);
        if envs.last().thread_id == t {
            before.push(envs.last())
        } else {
            before
        }
    }
}

/// Number of unread messages.
pub open spec fn unread_in(es: Seq<Envelope>) -> nat
    decreases es.len(),
{
    if es.len() == 0 {
        0
    } else {
        unread_in(es.drop_last()) + if es.last().read {
            0nat
        } else {
            1nat
        }
    }
}

/// The latest of the messages at instant `now`: the first of those with
/// the greatest sane date.
pub open spec fn latest(es: Seq<Envelope>, now: i64) -> Envelope
    decreases es.len(),
{
    if es.len() <= 1 {
        es[0]
    } else {
        let before = latest(es.drop_last(), now);
        if sane_timestamp(es.last().date, now) > sane_timestamp(before.date, now) {
            es.last()
        } else {
            before
        }
    }
}

/// Everyone the messages name, normalized, without the empty address.
pub open spec fn thread_participants(es: Seq<Envelope>) -> Set<Seq<char>>
    decreases es.len(),
{
    if es.len() == 0 {
        Set::empty()
    } else {
        thread_participants(es.drop_last()) + envelope_emails(es.last())
    }
}

/// Whether `r` is the row of thread `t`.
pub open spec fn thread_row(r: MailListRow, envs: Seq<Envelope>, t: ThreadId, now: i64) -> bool {
    let es = thread_messages(envs, t);
    let rep = latest(es, now);
    &&& r.thread_id == t
    &&& same_envelope(r.representative, rep)
    &&& r.message_count == es.len()
    &&& r.unread_count == unread_in(es)
    &&& r.other_participant_count == thread_participants(es).remove(normalized(rep.from)).len()
    &&& r.open_commitment_count == 0
    &&& !r.reply_later
    &&& !r.pending_mutation
}

/// Whether `r` is the row of the single message `e`.
pub open spec fn message_row(r: MailListRow, e: Envelope) -> bool {
    &&& r.thread_id == e.thread_id
    &&& same_envelope(r.representative, e)
    &&& r.message_count == 1
    &&& r.unread_count == if e.read {
        0int
    } else {
        1int
    }
    &&& r.other_participant_count == 0
    &&& r.open_commitment_count == 0
    &&& !r.reply_later
    &&& !r.pending_mutation
}

/// Whether `rows` are the mail list rows of the envelopes in `mode` at
/// instant `now`: one per message in their order, or one per thread in
/// the order of the threads' first messages.
pub open spec fn mail_list_rows(rows: Seq<MailListRow>, envs: Seq<Envelope>, mode: MailListMode, now: i64) -> bool {
    match mode {
        MailListMode::Messages => {
            &&& rows.len() == envs.len()
            &&& forall|i: int| 0 <= i < envs.len() ==> #[trigger] message_row(rows[i], envs[i])
        },
        MailListMode::Threads => {
            &&& rows.len() == thread_order(envs).len()
            &&& forall|k: int|
                0 <= k < rows.len() ==> #[trigger] thread_row(rows[k], envs, thread_order(envs)[k], now)
        },
    }
}

/// Number of entries other than `p`.
pub open spec fn count_other(s: Seq<Seq<char>>, p: Seq<char>) -> nat
    decreases s.len(),
{
    if s.len() == 0 {
        0
    } else {
        count_other(s.drop_last(), p) + if s.last() != p {
            1nat
        } else {
            0nat
        }
    }
}

proof fn lemma_count_other(s: Seq<Seq<char>>, p: Seq<char>)
    requires
        s.no_duplicates(),
    ensures
        count_other(s, p) == s.to_set().remove(p).len(),
    decreases s.len(),
{
    broadcast use vstd::seq_lib::seq_to_set_is_finite;

    if s.len() == 0 {
        assert(s.to_set().remove(p) =~= Set::empty());
    } else {
        let d = s.drop_last();
        let x = s.last();
        assert(d.no_duplicates()) by {
            assert forall|i: int, j: int| 0 <= i < d.len() && 0 <= j < d.len() && i != j implies d[i]
                != d[j] by {
                assert(d[i] == s[i] && d[j] == s[j]);
            }
        }
        lemma_count_other(d, p);
        assert(s =~= d.push(x));
        d.lemma_push_to_set_commute(x);
        assert(!d.to_set().contains(x)) by {
            if d.to_set().contains(x) {
                let j = choose|j: int| 0 <= j < d.len() && d[j] == x;
                assert(s[j] == s[s.len() - 1]);
            }
        }
        if x == p {
            assert(s.to_set().remove(p) =~= d.to_set().remove(p));
        } else {
            assert(s.to_set().remove(p) =~= d.to_set().remove(p).insert(x));
        }
    }
}

/// Number of participants in the list other than `primary`.
fn count_others(v: &Vec<String>, primary: &str) -> (r: usize)
    requires
        string_views(v@).no_duplicates(),
    ensures
        r == string_set(v@).remove(primary@).len(),
{
    let ghost sv = string_views(v@);
    let mut c: usize = 0;
    let mut i: usize = 0;
    while i < v.len()
        invariant
            i <= v.len(),
            sv == string_views(v@),
            c <= i,
            c == count_other(sv.take(i as int), primary@),
        decreases v.len() - i,
    {
        let ghost t = sv.take(i as int + 1);
        assert(t.drop_last() =~= sv.take(i as int));
        assert(t.last() == v@[i as int]@);
        if !str_eq(v[i].as_str(), primary) {
            c = c + 1;
        }
        i = i + 1;
    }
    assert(sv.take(v.len() as int) =~= sv);
    proof {
        lemma_count_other(sv, primary@);
    }
    c
}

/// One row per message.
fn message_rows(envelopes: &[Envelope]) -> (rows: Vec<MailListRow>)
    ensures
        rows.len() == envelopes.len(),
        forall|i: int| 0 <= i < envelopes.len() ==> #[trigger] message_row(rows@[i], envelopes@[i]),
{
    let mut rows: Vec<MailListRow> = Vec::new();
    let mut i: usize = 0;
    while i < envelopes.len()
        invariant
            i <= envelopes.len(),
            rows.len() == i,
            forall|j: int| 0 <= j < i ==> #[trigger] message_row(rows@[j], envelopes@[j]),
        decreases envelopes.len() - i,
    {
        let e = &envelopes[i];
        rows.push(
            MailListRow {
                thread_id: e.thread_id,
                representative: e.duplicate(),
                message_count: 1,
                unread_count: if e.read {
                    0
                } else {
                    1
                },
                other_participant_count: 0,
                open_commitment_count: 0,
                reply_later: false,
                pending_mutation: false,
            },
        );
        i = i + 1;
    }
    rows
}

/// Position of thread `t` in the list.
fn position_of(order: &Vec<ThreadId>, t: ThreadId) -> (r: Option<usize>)
    ensures
        r matches Some(k) ==> k < order.len() && order@[k as int] == t,
        r is None ==> !order@.contains(t),
{
    let mut k: usize = 0;
    while k < order.len()
        invariant
            k <= order.len(),
            forall|j: int| 0 <= j < k ==> order@[j] != t,
        decreases order.len() - k,
    {
        if order[k] == t {
            return Some(k);
        }
        k = k + 1;
    }
    None
}

/// What the loop of `thread_rows` knows of a thread after the messages
/// `p`: its count, unread count, latest message (by position in `envs`)
/// and participants.
pub open spec fn thread_slot(
    envs: Seq<Envelope>,
    p: Seq<Envelope>,
    now: i64,
    t: ThreadId,
    count: usize,
    unread: usize,
    rep: usize,
    part: Seq<String>,
) -> bool {
    let es = thread_messages(p, t);
    &&& count == es.len()
    &&& 0 < count <= p.len()
    &&& unread == unread_in(es)
    &&& unread <= count
    &&& rep < p.len()
    &&& rep < envs.len()
    &&& envs[rep as int] == latest(es, now)
    &&& participant_list(part)
    &&& string_set(part) == thread_participants(es)
}

proof fn lemma_push_step(p: Seq<Envelope>, e: Envelope)
    ensures
        p.push(e).drop_last() == p,
        p.push(e).last() == e,
        forall|t: ThreadId| #[trigger] thread_messages(p.push(e), t) == if e.thread_id == t {
            thread_messages(p, t).push(e)
        } else {
            thread_messages(p, t)
        },
        thread_order(p.push(e)) == if thread_order(p).contains(e.thread_id) {
            thread_order(p)
        } else {
            thread_order(p).push(e.thread_id)
        },
{
    assert(p.push(e).drop_last() =~= p);
}

proof fn lemma_thread_append(es: Seq<Envelope>, e: Envelope, now: i64)
    ensures
        es.push(e).drop_last() == es,
        unread_in(es.push(e)) == unread_in(es) + if e.read {
            0nat
        } else {
            1nat
        },
        thread_participants(es.push(e)) == thread_participants(es) + envelope_emails(e),
        es.len() == 0 ==> latest(es.push(e), now) == e,
        es.len() > 0 ==> latest(es.push(e), now) == if sane_timestamp(e.date, now) > sane_timestamp(
            latest(es, now).date,
            now,
        ) {
            e
        } else {
            latest(es, now)
        },
{
    assert(es.push(e).drop_last() =~= es);
}

/// One row per thread.
#[verifier::rlimit(50)]
fn thread_rows(envelopes: &[Envelope], now: i64) -> (rows: Vec<MailListRow>)
    requires
        now <= MAX_UTC_TIMESTAMP,
    ensures
        rows.len() == thread_order(envelopes@).len(),
        forall|k: int|
            0 <= k < rows.len() ==> #[trigger] thread_row(rows@[k], envelopes@, thread_order(envelopes@)[k], now),
{
    let ghost envs = envelopes@;
    let mut order: Vec<ThreadId> = Vec::new();
    let mut counts: Vec<usize> = Vec::new();
    let mut unread: Vec<usize> = Vec::new();
    let mut reps: Vec<usize> = Vec::new();
    let mut parts: Vec<Vec<String>> = Vec::new();
    let mut i: usize = 0;
    while i < envelopes.len()
        invariant
            i <= envelopes.len(),
            envs == envelopes@,
            now <= MAX_UTC_TIMESTAMP,
            order@ == thread_order(envs.take(i as int)),
            order@.no_duplicates(),
            counts.len() == order.len(),
            unread.len() == order.len(),
            reps.len() == order.len(),
            parts.len() == order.len(),
            forall|t: ThreadId|
                order@.contains(t) || #[trigger] thread_messages(envs.take(i as int), t).len() == 0,
            forall|k: int|
                0 <= k < order.len() ==> #[trigger] thread_slot(
                    envs,
                    envs.take(i as int),
                    now,
                    order@[k],
                    counts@[k],
                    unread@[k],
                    reps@[k],
                    parts@[k]@,
                ),
        decreases envelopes.len() - i,
    {
        let e = &envelopes[i];
        let ghost p = envs.take(i as int);
        let ghost q = envs.take(i as int + 1);
        proof {
            assert(q =~= p.push(envs[i as int]));
            lemma_push_step(p, envs[i as int]);
        }
        let ghost old_order = order@;
        let pos = position_of(&order, e.thread_id);
        match pos {
            None => {
                let ghost es = thread_messages(p, e.thread_id);
                proof {
                    assert(es.len() == 0);
                    lemma_thread_append(es, envs[i as int], now);
                    assert(thread_participants(es) =~= Set::empty());
                }
                let mut part: Vec<String> = Vec::new();
                assert(string_views(part@) =~= seq![]);
                ingest_participants_from_envelope(e, &mut part);
                assert(string_set(part@) =~= thread_participants(es.push(envs[i as int])));
                order.push(e.thread_id);
                counts.push(1);
                unread.push(
                    if e.read {
                        0
                    } else {
                        1
                    },
                );
                reps.push(i);
                parts.push(part);
                assert forall|k: int| 0 <= k < order.len() implies #[trigger] thread_slot(
                    envs,
                    q,
                    now,
                    order@[k],
                    counts@[k],
                    unread@[k],
                    reps@[k],
                    parts@[k]@,
                ) by {
                    if k < order.len() - 1 {
                        assert(thread_slot(
                            envs,
                            p,
                            now,
                            order@[k],
                            counts@[k],
                            unread@[k],
                            reps@[k],
                            parts@[k]@,
                        ));
                        assert(order@[k] != e.thread_id);
                    }
                }
            },
            Some(k) => {
                let ghost es = thread_messages(p, e.thread_id);
                assert(thread_slot(envs, p, now, order@[k as int], counts@[k as int], unread@[k as int], reps@[k as int], parts@[k as int]@));
                proof {
                    lemma_thread_append(es, envs[i as int], now);
                    assert(es.len() > 0);
                }
                let c = counts[k];
                counts.set(k, c + 1);
                if !e.read {
                    let u = unread[k];
                    unread.set(k, u + 1);
                }
                let current = sane_mail_sort_timestamp_at(envelopes[reps[k]].date, now);
                let candidate = sane_mail_sort_timestamp_at(e.date, now);
                if candidate > current {
                    reps.set(k, i);
                }
                let ghost before_parts = parts@[k as int]@;
                ingest_participants_from_envelope(e, &mut parts[k]);
                assert(string_set(parts@[k as int]@) =~= thread_participants(es.push(envs[i as int])));
                assert forall|j: int| 0 <= j < order.len() implies #[trigger] thread_slot(
                    envs,
                    q,
                    now,
                    order@[j],
                    counts@[j],
                    unread@[j],
                    reps@[j],
                    parts@[j]@,
                ) by {
                    if j != k {
                        assert(thread_slot(
                            envs,
                            p,
                            now,
                            order@[j],
                            counts@[j],
                            unread@[j],
                            reps@[j],
                            parts@[j]@,
                        ));
                    }
                }
            },
        }
        assert forall|t: ThreadId| order@.contains(t) || #[trigger] thread_messages(q, t).len() == 0 by {
            if old_order.contains(t) {
                let j = choose|j: int| 0 <= j < old_order.len() && old_order[j] == t;
                assert(order@[j] == t);
            } else if t == e.thread_id {
                let j = if pos is Some { pos->0 as int } else { old_order.len() as int };
                assert(order@[j] == t);
            } else {
                assert(thread_messages(p, t).len() == 0);
            }
        }
        i = i + 1;
    }
    assert(envs.take(envelopes.len() as int) =~= envs);
    let mut rows: Vec<MailListRow> = Vec::new();
    let mut k: usize = 0;
    while k < order.len()
        invariant
            k <= order.len(),
            envs == envelopes@,
            order@ == thread_order(envs),
            counts.len() == order.len(),
            unread.len() == order.len(),
            reps.len() == order.len(),
            parts.len() == order.len(),
            forall|j: int|
                0 <= j < order.len() ==> #[trigger] thread_slot(
                    envs,
                    envs,
                    now,
                    order@[j],
                    counts@[j],
                    unread@[j],
                    reps@[j],
                    parts@[j]@,
                ),
            rows.len() == k,
            forall|j: int| 0 <= j < k ==> #[trigger] thread_row(rows@[j], envs, order@[j], now),
        decreases order.len() - k,
    {
        assert(thread_slot(envs, envs, now, order@[k as int], counts@[k as int], unread@[k as int], reps@[k as int], parts@[k as int]@));
        let rep = envelopes[reps[k]].duplicate();
        let primary = normalized_email(&rep.from);
        let others = count_others(&parts[k], primary.as_str());
        rows.push(
            MailListRow {
                thread_id: order[k],
                representative: rep,
                message_count: counts[k],
                unread_count: unread[k],
                other_participant_count: others,
                open_commitment_count: 0,
                reply_later: false,
                pending_mutation: false,
            },
        );
        k = k + 1;
    }
    rows
}

/// The mail list rows of the envelopes in `mode` at instant `now`.
pub fn build_mail_list_rows_at(envelopes: &[Envelope], mode: MailListMode, now: i64) -> (rows: Vec<
    MailListRow,
>)
    requires
        now <= MAX_UTC_TIMESTAMP,
    ensures
        mail_list_rows(rows@, envelopes@, mode, now),
{
    match mode {
        MailListMode::Messages => message_rows(envelopes),
        MailListMode::Threads => thread_rows(envelopes, now),
    }
}

/// The mail list rows of the envelopes in `mode`, with future dates
/// judged at the current instant.
pub fn build_mail_list_rows(envelopes: &[Envelope], mode: MailListMode) -> (rows: Vec<MailListRow>)
    ensures
        exists|now: i64|
            crate::clock::clock_reading(now as int) && #[trigger] mail_list_rows(rows@, envelopes@, mode, now),
{
    let (now, _) = utc_now();
    let rows = build_mail_list_rows_at(envelopes, mode, now);
    assert(mail_list_rows(rows@, envelopes@, mode, now));
    rows
}


/// Fewest messages a thread needs before it can be called dormant.
pub const DORMANT_MIN_MESSAGES: usize = 3;

/// Days without news after which a thread is dormant.
pub const DORMANT_DAYS: i64 = 30;

/// Whole days from `date` to `now` (seconds), rounded toward zero.
pub open spec fn whole_days(now: i64, date: i64) -> int {
    let d = now - date;
    if d >= 0 {
        d / 86400
    } else {
        -((-d) / 86400)
    }
}

/// The hint that the selected thread is dormant: it has at least
/// `DORMANT_MIN_MESSAGES` messages and its latest is `DORMANT_DAYS` days
/// old or older.
pub open spec fn dormant_hint(rows: Seq<MailListRow>, selected: int, now: i64) -> Option<Seq<char>> {
    if 0 <= selected < rows.len() && rows[selected].message_count >= DORMANT_MIN_MESSAGES
        && whole_days(now, rows[selected].representative.date) >= DORMANT_DAYS {
        Some("Dormant "@ + decimal(whole_days(now, rows[selected].representative.date) as nat)
            + "d. Press B for briefing"@)
    } else {
        None
    }
}

/// The dormant-thread hint for the selected row at instant `now`
/// (seconds).
pub fn dormant_thread_hint_at(rows: &[MailListRow], selected_index: usize, now: i64) -> (r: Option<
    String,
>)
    requires
        MIN_UTC_TIMESTAMP <= now <= MAX_UTC_TIMESTAMP,
        forall|i: int|
            0 <= i < rows.len() ==> MIN_UTC_TIMESTAMP <= (#[trigger] rows[i]).representative.date
                <= MAX_UTC_TIMESTAMP,
    ensures
        match dormant_hint(rows@, selected_index as int, now) {
            Some(h) => r matches Some(s) && s@ == h,
            None => r is None,
        },
{
    if selected_index >= rows.len() {
        return None;
    }
    let row = &rows[selected_index];
    if row.message_count < DORMANT_MIN_MESSAGES {
        return None;
    }
    let diff: i64 = now - row.representative.date;
    let days: i64 = if diff >= 0 {
        diff / 86400
    } else {
        0 - ((0 - diff) / 86400)
    };
    if days < DORMANT_DAYS {
        return None;
    }
    let n = u64_to_decimal(days as u64);
    Some(concat3("Dormant ", n.as_str(), "d. Press B for briefing"))
}

/// The dormant-thread hint for the selected row, at the current instant.
pub fn dormant_thread_hint(rows: &[MailListRow], selected_index: usize) -> (r: Option<String>)
    requires
        forall|i: int|
            0 <= i < rows.len() ==> MIN_UTC_TIMESTAMP <= (#[trigger] rows[i]).representative.date
                <= MAX_UTC_TIMESTAMP,
    ensures
        exists|now: i64|
            crate::clock::clock_reading(now as int) && match #[trigger] dormant_hint(
                rows@,
                selected_index as int,
                now,
            ) {
                Some(h) => r matches Some(s) && s@ == h,
                None => r is None,
            },
{
    let (now, _) = utc_now();
    let r = dormant_thread_hint_at(rows, selected_index, now);
    assert(match dormant_hint(rows@, selected_index as int, now) {
        Some(h) => r matches Some(s) && s@ == h,
        None => r is None,
    });
    r
}

// ---------------------------------------------------------------------
// Laws of the mail list
// ---------------------------------------------------------------------

/// A thread is not summarised on its own when it has a calendar message
/// among its fetched bodies, when all its bodies are fetched and none has
/// a word, when it is a single message from an automated sender, or when
/// neither word count reaches the minimum; otherwise it is, the words of
/// the fetched bodies counting when the synchronised count is missing.
pub proof fn law_auto_summary_skips(envs: Seq<Envelope>, cache: Map<MessageId, MessageBody>)
    ensures
        has_calendar_body(envs, cache) ==> !summary_eligible(envs, cache),
        all_fetched(envs, cache) && !has_body_text(envs, cache) ==> !summary_eligible(envs, cache),
        envs.len() == 1 && is_automated(envs[0].from) ==> !summary_eligible(envs, cache),
        capped(synced_words(envs)) < AUTO_SUMMARY_MIN_WORDS && capped(fetched_words(envs, cache))
            < AUTO_SUMMARY_MIN_WORDS ==> !summary_eligible(envs, cache),
        envs.len() > 0 && !has_calendar_body(envs, cache) && !(all_fetched(envs, cache)
            && !has_body_text(envs, cache)) && !(envs.len() == 1 && is_automated(envs[0].from))
            && capped(fetched_words(envs, cache)) >= AUTO_SUMMARY_MIN_WORDS ==> summary_eligible(
            envs,
            cache,
        ),
{
}

proof fn lemma_latest(es: Seq<Envelope>, now: i64)
    requires
        es.len() > 0,
    ensures
        es.contains(latest(es, now)),
        forall|i: int| 0 <= i < es.len() ==> sane_timestamp(#[trigger] es[i].date, now) <= sane_timestamp(latest(es, now).date, now),
    decreases es.len(),
{
    if es.len() == 1 {
        assert(es[0] == latest(es, now));
    } else {
        let d = es.drop_last();
        lemma_latest(d, now);
        let before = latest(d, now);
        let k = choose|k: int| 0 <= k < d.len() && d[k] == before;
        assert(es[k] == before);
        assert(es[es.len() - 1] == es.last());
        assert forall|i: int| 0 <= i < es.len() implies sane_timestamp(#[trigger] es[i].date, now) <= sane_timestamp(latest(es, now).date, now) by {
            if i < es.len() - 1 {
                assert(es[i] == d[i]);
            }
        }
    }
}

/// The row of a thread shows one of the thread's messages, and none of
/// its messages has a later sane date: a date more than a day ahead of
/// the current instant counts as 0, so it never wins over a real one.
pub proof fn law_representative_is_latest(envs: Seq<Envelope>, t: ThreadId, now: i64)
    requires
        thread_messages(envs, t).len() > 0,
    ensures
        thread_messages(envs, t).contains(latest(thread_messages(envs, t), now)),
        forall|i: int|
            0 <= i < thread_messages(envs, t).len() ==> sane_timestamp(
                #[trigger] thread_messages(envs, t)[i].date,
                now,
            ) <= sane_timestamp(latest(thread_messages(envs, t), now).date, now),
{
    lemma_latest(thread_messages(envs, t), now);
}

/// Number of messages of the threads in `order`.
pub open spec fn messages_in_threads(envs: Seq<Envelope>, order: Seq<ThreadId>) -> nat
    decreases order.len(),
{
    if order.len() == 0 {
        0
    } else {
        messages_in_threads(envs, order.drop_last()) + thread_messages(envs, order.last()).len()
    }
}

proof fn lemma_thread_order(p: Seq<Envelope>)
    ensures
        thread_order(p).no_duplicates(),
        forall|t: ThreadId| #[trigger] thread_order(p).contains(t) <==> thread_messages(p, t).len() > 0,
    decreases p.len(),
{
    if p.len() > 0 {
        let d = p.drop_last();
        let e = p.last();
        lemma_thread_order(d);
        lemma_push_step(d, e);
        assert(p =~= d.push(e));
        let o = thread_order(d);
        assert forall|t: ThreadId| #[trigger] thread_order(p).contains(t) <==> thread_messages(p, t).len() > 0 by {
            if !o.contains(e.thread_id) {
                if o.contains(t) {
                    let k = choose|k: int| 0 <= k < o.len() && o[k] == t;
                    assert(o.push(e.thread_id)[k] == t);
                }
                if t == e.thread_id {
                    assert(o.push(e.thread_id)[o.len() as int] == t);
                }
                if o.push(e.thread_id).contains(t) && t != e.thread_id {
                    let k = choose|k: int| 0 <= k < o.len() + 1 && o.push(e.thread_id)[k] == t;
                    assert(o[k] == t);
                }
            }
        }
    }
}

proof fn lemma_messages_in_threads_step(p: Seq<Envelope>, e: Envelope, order: Seq<ThreadId>)
    requires
        order.no_duplicates(),
    ensures
        messages_in_threads(p.push(e), order) == messages_in_threads(p, order) + if order.contains(
            e.thread_id,
        ) {
            1nat
        } else {
            0nat
        },
    decreases order.len(),
{
    lemma_push_step(p, e);
    if order.len() > 0 {
        let d = order.drop_last();
        assert(d.no_duplicates()) by {
            assert forall|i: int, j: int| 0 <= i < d.len() && 0 <= j < d.len() && i != j implies d[i] != d[j] by {
                assert(d[i] == order[i] && d[j] == order[j]);
            }
        }
        lemma_messages_in_threads_step(p, e, d);
        if order.last() == e.thread_id {
            assert(!d.contains(e.thread_id)) by {
                if d.contains(e.thread_id) {
                    let k = choose|k: int| 0 <= k < d.len() && d[k] == e.thread_id;
                    assert(order[k] == order[order.len() - 1]);
                }
            }
            assert(order.contains(e.thread_id)) by {
                assert(order[order.len() - 1] == e.thread_id);
            }
        } else {
            assert(d.contains(e.thread_id) == order.contains(e.thread_id)) by {
                if order.contains(e.thread_id) {
                    let k = choose|k: int| 0 <= k < order.len() && order[k] == e.thread_id;
                    assert(d[k] == e.thread_id);
                }
                if d.contains(e.thread_id) {
                    let k = choose|k: int| 0 <= k < d.len() && d[k] == e.thread_id;
                    assert(order[k] == e.thread_id);
                }
            }
        }
    }
}

/// Grouping by thread loses no message and counts none twice: the
/// message counts of the thread rows add up to the number of messages.
pub proof fn law_thread_rows_count_every_message(envs: Seq<Envelope>)
    ensures
        messages_in_threads(envs, thread_order(envs)) == envs.len(),
    decreases envs.len(),
{
    if envs.len() > 0 {
        let p = envs.drop_last();
        let e = envs.last();
        assert(envs =~= p.push(e));
        law_thread_rows_count_every_message(p);
        lemma_thread_order(p);
        lemma_push_step(p, e);
        let o = thread_order(p);
        lemma_messages_in_threads_step(p, e, o);
        if !o.contains(e.thread_id) {
            assert(thread_messages(p, e.thread_id).len() == 0);
            assert(o.push(e.thread_id).drop_last() =~= o);
        }
    }
}

/// Sum of the message counts of the rows.
pub open spec fn row_message_total(rows: Seq<MailListRow>) -> nat
    decreases rows.len(),
{
    if rows.len() == 0 {
        0
    } else {
        row_message_total(rows.drop_last()) + rows.last().message_count as nat
    }
}

proof fn lemma_row_totals(rows: Seq<MailListRow>, envs: Seq<Envelope>, now: i64, n: int)
    requires
        rows.len() == thread_order(envs).len(),
        forall|k: int|
            0 <= k < rows.len() ==> #[trigger] thread_row(rows[k], envs, thread_order(envs)[k], now),
        0 <= n <= rows.len(),
    ensures
        row_message_total(rows.take(n)) == messages_in_threads(envs, thread_order(envs).take(n)),
    decreases n,
{
    if n > 0 {
        lemma_row_totals(rows, envs, now, n - 1);
        assert(rows.take(n).drop_last() =~= rows.take(n - 1));
        assert(thread_order(envs).take(n).drop_last() =~= thread_order(envs).take(n - 1));
        assert(thread_row(rows[n - 1], envs, thread_order(envs)[n - 1], now));
    }
}

proof fn lemma_message_rows_total(rows: Seq<MailListRow>, envs: Seq<Envelope>, n: int)
    requires
        rows.len() == envs.len(),
        forall|i: int| 0 <= i < envs.len() ==> #[trigger] message_row(rows[i], envs[i]),
        0 <= n <= rows.len(),
    ensures
        row_message_total(rows.take(n)) == n,
    decreases n,
{
    if n > 0 {
        lemma_message_rows_total(rows, envs, n - 1);
        assert(rows.take(n).drop_last() =~= rows.take(n - 1));
        assert(message_row(rows[n - 1], envs[n - 1]));
    }
}

/// Every message is counted once: in either mode the message counts of
/// the mail list rows add up to the number of envelopes.
pub proof fn law_row_counts_sum_to_messages(
    rows: Seq<MailListRow>,
    envs: Seq<Envelope>,
    mode: MailListMode,
    now: i64,
)
    requires
        mail_list_rows(rows, envs, mode, now),
    ensures
        row_message_total(rows) == envs.len(),
{
    assert(rows.take(rows.len() as int) =~= rows);
    match mode {
        MailListMode::Messages => {
            lemma_message_rows_total(rows, envs, rows.len() as int);
        },
        MailListMode::Threads => {
            lemma_row_totals(rows, envs, now, rows.len() as int);
            assert(thread_order(envs).take(rows.len() as int) =~= thread_order(envs));
            law_thread_rows_count_every_message(envs);
        },
    }
}

proof fn lemma_thread_messages_nonempty(envs: Seq<Envelope>, m: int)
    requires
        0 <= m < envs.len(),
    ensures
        thread_messages(envs, envs[m].thread_id).len() > 0,
    decreases envs.len(),
{
    let t = envs[m].thread_id;
    if m < envs.len() - 1 {
        lemma_thread_messages_nonempty(envs.drop_last(), m);
        assert(envs.drop_last()[m] == envs[m]);
        if envs.last().thread_id == t {
        } else {
        }
    }
}

/// In the thread view every thread of the list has exactly one row: no
/// two rows share a thread, and each message's thread has a row.
pub proof fn law_one_row_per_thread(rows: Seq<MailListRow>, envs: Seq<Envelope>, now: i64)
    requires
        mail_list_rows(rows, envs, MailListMode::Threads, now),
    ensures
        forall|i: int, j: int|
            0 <= i < j < rows.len() ==> rows[i].thread_id != rows[j].thread_id,
        forall|m: int|
            0 <= m < envs.len() ==> exists|k: int|
                0 <= k < rows.len() && rows[k].thread_id == #[trigger] envs[m].thread_id,
{
    lemma_thread_order(envs);
    let o = thread_order(envs);
    assert forall|i: int, j: int| 0 <= i < j < rows.len() implies rows[i].thread_id != rows[j].thread_id by {
        assert(thread_row(rows[i], envs, o[i], now));
        assert(thread_row(rows[j], envs, o[j], now));
    }
    assert forall|m: int| 0 <= m < envs.len() implies exists|k: int|
        0 <= k < rows.len() && rows[k].thread_id == #[trigger] envs[m].thread_id by {
        let t = envs[m].thread_id;
        lemma_thread_messages_nonempty(envs, m);
        assert(o.contains(t));
        let k = choose|k: int| 0 <= k < o.len() && o[k] == t;
        assert(thread_row(rows[k], envs, o[k], now));
    }
}

/// The dormant hint counts whole days since the selected thread's latest
/// message: a thread of at least three messages whose latest is `k` whole
/// days before `now` is called dormant for `k` days when `k` is 30 or more,
/// and not at all when it is fewer.
pub proof fn law_dormant_hint_counts_days(rows: Seq<MailListRow>, selected: int, now: i64, k: int)
    requires
        0 <= selected < rows.len(),
        rows[selected].message_count >= 3,
        0 <= k,
        k * 86400 <= now - rows[selected].representative.date < (k + 1) * 86400,
    ensures
        k >= 30 ==> dormant_hint(rows, selected, now) == Some(
            "Dormant "@ + decimal(k as nat) + "d. Press B for briefing"@,
        ),
        k < 30 ==> dormant_hint(rows, selected, now) is None,
{
    let d = now - rows[selected].representative.date;
    assert(d / 86400 == k) by (nonlinear_arith)
        requires
            k * 86400 <= d < (k + 1) * 86400,
            0 <= k,
    {
    }
}

/// No hint for a thread of fewer than three messages, however old.
pub proof fn law_short_threads_never_dormant(rows: Seq<MailListRow>, selected: int, now: i64)
    requires
        0 <= selected < rows.len(),
        rows[selected].message_count < 3,
    ensures
        dormant_hint(rows, selected, now) is None,
{
}

} // verus!
