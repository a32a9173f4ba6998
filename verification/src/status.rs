//! The synchronisation summary of the status bar.
use vstd::prelude::*;
use crate::clock::{clock_reading, rfc3339_age, rfc3339_timestamp, seconds_between};
use crate::text::{owned, concat2, u64_to_decimal, decimal};

verus! {

broadcast use vstd::string::group_string_axioms;

/// What the daemon reports of the synchronisation of one account.
pub struct AccountSyncStatus {
    pub sync_in_progress: bool,
    pub healthy: bool,
    pub last_error: Option<String>,
    /// When the last synchronisation succeeded, in RFC 3339.
    pub last_success_at: Option<String>,
}

/// How long ago, for `seconds` elapsed (a negative span counts as none).
pub open spec fn age_label(seconds: int) -> Seq<char> {
    let s = if seconds < 0 {
        0
    } else {
        seconds
    };
    if s < 60 {
        "just now"@
    } else if s < 3600 {
        decimal((s / 60) as nat) + "m ago"@
    } else if s < 86400 {
        decimal((s / 3600) as nat) + "h ago"@
    } else {
        decimal((s / 86400) as nat) + "d ago"@
    }
}

/// How long ago, for `seconds` elapsed.
pub fn sync_age_label(seconds: i64) -> (r: String)
    ensures
        r@ == age_label(seconds as int),
{
    let s: i64 = if seconds < 0 {
        0
    } else {
        seconds
    };
    if s < 60 {
        owned("just now")
    } else if s < 3600 {
        concat2(u64_to_decimal((s / 60) as u64).as_str(), "m ago")
    } else if s < 86400 {
        concat2(u64_to_decimal((s / 3600) as u64).as_str(), "h ago")
    } else {
        concat2(u64_to_decimal((s / 86400) as u64).as_str(), "d ago")
    }
}

/// The age of a synchronisation instant given as its Unix timestamp and
/// the seconds elapsed since: the label and the timestamp it sorts by.
pub fn sync_age_from(instant: Option<(i64, i64)>) -> (r: Option<(String, i64)>)
    ensures
        match instant {
            Some((t, elapsed)) => r matches Some(p) && p.0@ == age_label(elapsed as int) && p.1 == t,
            None => r is None,
        },
{
    match instant {
        Some((t, elapsed)) => Some((sync_age_label(elapsed), t)),
        None => None,
    }
}

/// How long ago an RFC 3339 instant was, with the timestamp it sorts by;
/// `None` where the text does not parse. The age is the whole seconds
/// from the instant to the clock reading taken by the call.
pub fn format_sync_age(timestamp: &str) -> (r: Option<(String, i64)>)
    ensures
        r is Some <==> rfc3339_timestamp(timestamp@) is Some,
        r matches Some(p) ==> rfc3339_timestamp(timestamp@) == Some(p.1) && exists|elapsed: i64|
            p.0@ == #[trigger] age_label(elapsed as int),
        r matches Some(p) ==> exists|now: int|
            #[trigger] clock_reading(now) && exists|elapsed: int|
                seconds_between(p.1 as int, now, elapsed) && p.0@ == #[trigger] age_label(elapsed),
{
    let instant = rfc3339_age(timestamp);
    let r = sync_age_from(instant);
    proof {
        if let Some((t, elapsed)) = instant {
            let label = r->0;
            assert(age_label(elapsed as int) == label.0@);
            let now = choose|now: int| clock_reading(now) && seconds_between(t as int, now, elapsed as int);
            assert(clock_reading(now));
            assert(seconds_between(label.1 as int, now, elapsed as int) && label.0@ == age_label(elapsed as int));
        }
    }
    r
}

/// The entry that the summary reports: among the accounts with an age,
/// the last of those with the latest timestamp.
pub open spec fn latest_age(ages: Seq<Option<(String, i64)>>) -> Option<(String, i64)>
    decreases ages.len(),
{
    if ages.len() == 0 {
        None
    } else {
        let before = latest_age(ages.drop_last());
        match ages.last() {
            Some(cur) => match before {
                Some(best) => if cur.1 >= best.1 {
                    Some(cur)
                } else {
                    Some(best)
                },
                None => Some(cur),
            },
            None => before,
        }
    }
}

/// Whether some account is being synchronised.
pub open spec fn any_in_progress(s: Seq<AccountSyncStatus>) -> bool {
    exists|i: int| 0 <= i < s.len() && #[trigger] s[i].sync_in_progress
}

/// Whether some account reports a problem.
pub open spec fn any_degraded(s: Seq<AccountSyncStatus>) -> bool {
    exists|i: int| 0 <= i < s.len() && (!(#[trigger] s[i]).healthy || s[i].last_error is Some)
}

/// The synchronisation summary, given for each account the age of its
/// last success (`None` where it has none, or where it does not parse):
/// "not synced" without accounts, "syncing" while one is, "degraded" when
/// one reports a problem, else "synced" with the age of the latest
/// success, or "not synced" without one.
pub open spec fn sync_summary(s: Seq<AccountSyncStatus>, ages: Seq<Option<(String, i64)>>) -> Seq<char> {
    if s.len() == 0 {
        "not synced"@
    } else if any_in_progress(s) {
        "syncing"@
    } else if any_degraded(s) {
        "degraded"@
    } else {
        match latest_age(ages) {
            Some(best) => "synced "@ + best.0@,
            None => "not synced"@,
        }
    }
}

/// The synchronisation summary, from the ages of the last successes.
pub fn summarize_sync_status_with(
    sync_statuses: &[AccountSyncStatus],
    ages: &Vec<Option<(String, i64)>>,
) -> (r: String)
    ensures
        r@ == sync_summary(sync_statuses@, ages@),
{
    let ghost s = sync_statuses@;
    if sync_statuses.len() == 0 {
        return owned("not synced");
    }
    let mut i: usize = 0;
    while i < sync_statuses.len()
        invariant
            i <= sync_statuses.len(),
            s == sync_statuses@,
            forall|j: int| 0 <= j < i ==> !(#[trigger] s[j]).sync_in_progress,
        decreases sync_statuses.len() - i,
    {
        if sync_statuses[i].sync_in_progress {
            assert(any_in_progress(s));
            return owned("syncing");
        }
        i = i + 1;
    }
    let mut i: usize = 0;
    while i < sync_statuses.len()
        invariant
            i <= sync_statuses.len(),
            s == sync_statuses@,
            !any_in_progress(s),
            forall|j: int| 0 <= j < i ==> (#[trigger] s[j]).healthy && s[j].last_error is None,
        decreases sync_statuses.len() - i,
    {
        if !sync_statuses[i].healthy || sync_statuses[i].last_error.is_some() {
            assert(!s[i as int].healthy || s[i as int].last_error is Some);
            return owned("degraded");
        }
        i = i + 1;
    }
    let ghost a = ages@;
    let mut best: Option<usize> = None;
    let mut k: usize = 0;
    while k < ages.len()
        invariant
            k <= ages.len(),
            a == ages@,
            match best {
                Some(b) => b < k && a[b as int] is Some && latest_age(a.take(k as int)) == a[b as int],
                None => latest_age(a.take(k as int)) is None,
            },
        decreases ages.len() - k,
    {
        let ghost t = a.take(k as int + 1);
        assert(t.drop_last() =~= a.take(k as int));
        assert(t.last() == a[k as int]);
        match &ages[k] {
            Some(cur) => {
                match best {
                    Some(b) => {
                        let better = match &ages[b] {
                            Some(prev) => cur.1 >= prev.1,
                            None => true,
                        };
                        if better {
                            best = Some(k);
                        }
                    },
                    None => {
                        best = Some(k);
                    },
                }
            },
            None => {},
        }
        k = k + 1;
    }
    assert(a.take(ages.len() as int) =~= a);
    match best {
        Some(b) => match &ages[b] {
            Some(entry) => concat2("synced ", entry.0.as_str()),
            None => owned("not synced"),
        },
        None => owned("not synced"),
    }
}

/// The ages of the last successes of the accounts.
pub open spec fn ages_match(s: Seq<AccountSyncStatus>, ages: Seq<Option<(String, i64)>>) -> bool {
    &&& ages.len() == s.len()
    &&& forall|i: int|
        0 <= i < s.len() ==> match s[i].last_success_at {
            Some(text) => (#[trigger] ages[i] is Some) == (rfc3339_timestamp(text@) is Some) && match ages[i] {
                Some(p) => {
                    &&& rfc3339_timestamp(text@) == Some(p.1)
                    &&& exists|elapsed: i64| p.0@ == #[trigger] age_label(elapsed as int)
                    &&& exists|now: int|
                        #[trigger] clock_reading(now) && exists|elapsed: int|
                            seconds_between(p.1 as int, now, elapsed) && p.0@ == #[trigger] age_label(elapsed)
                },
                None => true,
            },
            None => ages[i] is None,
        }
}

/// The synchronisation summary of the status bar, with ages measured at
/// the current instant.
pub fn summarize_sync_status(sync_statuses: &[AccountSyncStatus]) -> (r: String)
    ensures
        exists|ages: Seq<Option<(String, i64)>>| ages_match(sync_statuses@, ages) && r@ == #[trigger] sync_summary(sync_statuses@, ages),
{
    let mut ages: Vec<Option<(String, i64)>> = Vec::new();
    let mut i: usize = 0;
    while i < sync_statuses.len()
        invariant
            i <= sync_statuses.len(),
            ages_match(sync_statuses@.take(i as int), ages@),
        decreases sync_statuses.len() - i,
    {
        let age = match &sync_statuses[i].last_success_at {
            Some(text) => format_sync_age(text.as_str()),
            None => None,
        };
        ages.push(age);
        i = i + 1;
        assert forall|j: int| 0 <= j < i implies #[trigger] sync_statuses@.take(i as int)[j] == sync_statuses@[j] by {}
    }
    assert(sync_statuses@.take(sync_statuses.len() as int) =~= sync_statuses@);
    let r = summarize_sync_status_with(sync_statuses, &ages);
    assert(sync_summary(sync_statuses@, ages@) == r@);
    r
}

/// The age label counts whole units of the elapsed seconds: under a
/// minute (or a span that runs backwards) is "just now"; `m` whole minutes
/// under an hour is "`m`m ago"; `h` whole hours under a day "`h`h ago";
/// `d` whole days "`d`d ago".
pub proof fn law_age_label_counts_units(elapsed: int, n: int)
    requires
        n >= 1,
    ensures
        elapsed < 60 ==> age_label(elapsed) == "just now"@,
        n < 60 && n * 60 <= elapsed < (n + 1) * 60 ==> age_label(elapsed) == decimal(n as nat)
            + "m ago"@,
        n < 24 && n * 3600 <= elapsed < (n + 1) * 3600 ==> age_label(elapsed) == decimal(n as nat)
            + "h ago"@,
        n * 86400 <= elapsed < (n + 1) * 86400 ==> age_label(elapsed) == decimal(n as nat)
            + "d ago"@,
{
    if n * 60 <= elapsed < (n + 1) * 60 {
        assert(elapsed / 60 == n) by (nonlinear_arith)
            requires
                n * 60 <= elapsed < (n + 1) * 60,
        {
        }
    }
    if n * 3600 <= elapsed < (n + 1) * 3600 {
        assert(elapsed / 3600 == n) by (nonlinear_arith)
            requires
                n * 3600 <= elapsed < (n + 1) * 3600,
        {
        }
    }
    if n * 86400 <= elapsed < (n + 1) * 86400 {
        assert(elapsed / 86400 == n) by (nonlinear_arith)
            requires
                n * 86400 <= elapsed < (n + 1) * 86400,
        {
        }
    }
}

/// The age shown for an instant is the age of the instant as the clock
/// reading sees it, to the second: an instant `m` whole minutes (under an
/// hour) before a clock reading, with at least a second to spare on each
/// side, is labelled "`m`m ago" whatever the fractions of a second.
pub proof fn law_sync_age_follows_reading(t: int, now: int, elapsed: int, m: int)
    requires
        seconds_between(t, now, elapsed),
        1 <= m < 60,
        m * 60 + 1 <= now - t < (m + 1) * 60 - 1,
    ensures
        age_label(elapsed) == decimal(m as nat) + "m ago"@,
{
    law_age_label_counts_units(elapsed, m);
}

} // verus!
