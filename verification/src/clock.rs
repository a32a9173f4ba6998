//! The wall clock and the calendar, through `chrono`.
use vstd::prelude::*;
use chrono::TimeZone;

verus! {

/// Earliest calendar year `chrono` represents.
pub const MIN_YEAR: i32 = -262143;

/// Latest calendar year `chrono` represents.
pub const MAX_YEAR: i32 = 262142;

/// Unix timestamp of the earliest instant `chrono` represents
/// (-262143-01-01T00:00:00Z).
pub const MIN_UTC_TIMESTAMP: i64 = -8334601228800;

/// Unix timestamp of the latest instant `chrono` represents
/// (+262142-12-31T23:59:59Z).
pub const MAX_UTC_TIMESTAMP: i64 = 8210266876799;

// ---------------------------------------------------------------------
// The proleptic Gregorian calendar
// ---------------------------------------------------------------------

/// Whether `y` is a leap year (year 0 is 1 BCE, a leap year).
pub open spec fn is_leap(y: int) -> bool {
    (y % 4 == 0 && y % 100 != 0) || y % 400 == 0
}

/// A count that grows by one at each leap year up to and including `x`.
pub open spec fn leaps_through(x: int) -> int {
    x / 4 - x / 100 + x / 400
}

/// Days from 1970-01-01 to 1 January of year `y`.
pub open spec fn days_before_year(y: int) -> int {
    365 * (y - 1970) + leaps_through(y - 1) - leaps_through(1969)
}

/// Days in month `m` (1 to 12) of year `y`.
pub open spec fn days_in_month(y: int, m: int) -> int {
    if m == 2 {
        if is_leap(y) {
            29
        } else {
            28
        }
    } else if m == 4 || m == 6 || m == 9 || m == 11 {
        30
    } else {
        31
    }
}

/// Days of year `y` before month `m` (1 to 12).
pub open spec fn days_before_month(y: int, m: int) -> int {
    let leap_day: int = if m > 2 && is_leap(y) { 1int } else { 0int };
    let before: int = if m == 1 {
        0int
    } else if m == 2 {
        31int
    } else if m == 3 {
        59int
    } else if m == 4 {
        90int
    } else if m == 5 {
        120int
    } else if m == 6 {
        151int
    } else if m == 7 {
        181int
    } else if m == 8 {
        212int
    } else if m == 9 {
        243int
    } else if m == 10 {
        273int
    } else if m == 11 {
        304int
    } else {
        334int
    };
    leap_day + before
}

/// Whether a date and time exists in the calendar `chrono` represents.
pub open spec fn valid_datetime(year: int, month: int, day: int, hour: int, minute: int, second: int) -> bool {
    &&& MIN_YEAR <= year <= MAX_YEAR
    &&& 1 <= month <= 12
    &&& 1 <= day <= days_in_month(year, month)
    &&& 0 <= hour < 24
    &&& 0 <= minute < 60
    &&& 0 <= second < 60
}

/// Seconds from 1970-01-01T00:00:00Z to a date and time.
pub open spec fn calendar_seconds(year: int, month: int, day: int, hour: int, minute: int, second: int) -> int {
    (days_before_year(year) + days_before_month(year, month) + day - 1) * 86400 + hour * 3600 + minute
        * 60 + second
}

/// The Unix timestamp of a UTC date and time, `None` when it does not
/// exist.
pub open spec fn utc_datetime_timestamp(
    year: i32,
    month: u32,
    day: u32,
    hour: u32,
    minute: u32,
    second: u32,
) -> Option<int> {
    if valid_datetime(year as int, month as int, day as int, hour as int, minute as int, second as int) {
        Some(calendar_seconds(year as int, month as int, day as int, hour as int, minute as int, second as int))
    } else {
        None
    }
}

/// An optional timestamp as a mathematical integer.
pub open spec fn as_int_option(t: Option<i64>) -> Option<int> {
    match t {
        Some(v) => Some(v as int),
        None => None,
    }
}

/// Whether `y` is the calendar year of the instant `ts` (seconds).
pub open spec fn is_year_of(y: int, ts: int) -> bool {
    &&& MIN_YEAR <= y <= MAX_YEAR
    &&& days_before_year(y) * 86400 <= ts
    &&& ts < days_before_year(y + 1) * 86400
}

/// The calendar year of the instant `ts` (seconds).
pub open spec fn year_of(ts: int) -> int {
    choose|y: int| is_year_of(y, ts)
}

proof fn lemma_leaps_step(y: int)
    ensures
        leaps_through(y) - leaps_through(y - 1) == if is_leap(y) { 1int } else { 0int },
{
    assert(leaps_through(y) - leaps_through(y - 1) == if is_leap(y) { 1int } else { 0int }) by (nonlinear_arith);
}

/// A year has 366 days when it is a leap year, 365 otherwise.
pub proof fn lemma_year_length(y: int)
    ensures
        days_before_year(y + 1) - days_before_year(y) == if is_leap(y) { 366int } else { 365int },
{
    lemma_leaps_step(y);
}

proof fn lemma_years_increase(a: int, b: int)
    requires
        a < b,
    ensures
        days_before_year(a + 1) <= days_before_year(b),
    decreases b - a,
{
    lemma_year_length(a);
    if a + 1 < b {
        lemma_years_increase(a + 1, b);
        lemma_year_length(a + 1);
    }
}

/// An instant has at most one calendar year.
pub proof fn lemma_year_unique(a: int, b: int, ts: int)
    requires
        is_year_of(a, ts),
        is_year_of(b, ts),
    ensures
        a == b,
{
    if a < b {
        lemma_years_increase(a, b);
    } else if b < a {
        lemma_years_increase(b, a);
    }
}

/// Days from 1970-01-01 to 1 January of year `y`, for the years `chrono`
/// represents and the one after.
fn days_before_year_exec(y: i32) -> (r: i64)
    requires
        MIN_YEAR <= y <= MAX_YEAR + 1,
    ensures
        r == days_before_year(y as int),
{
    let x: i64 = y as i64 - 1 + 400000;
    proof {
        let z = y as int - 1;
        assert((z + 400000) / 4 == z / 4 + 100000) by (nonlinear_arith);
        assert((z + 400000) / 100 == z / 100 + 4000) by (nonlinear_arith);
        assert((z + 400000) / 400 == z / 400 + 1000) by (nonlinear_arith);
    }
    let leaps: i64 = x / 4 - x / 100 + x / 400 - 97000;
    365 * (y as i64 - 1970) + leaps - 477
}

proof fn lemma_years_in_range(y: int)
    requires
        MIN_YEAR <= y <= MAX_YEAR + 1,
    ensures
        -100000000 <= days_before_year(y) <= 100000000,
{
    assert(-100000000 <= days_before_year(y) <= 100000000) by (nonlinear_arith)
        requires
            MIN_YEAR <= y <= MAX_YEAR + 1;
}

/// The calendar year of an instant `chrono` represents.
pub(crate) fn year_of_timestamp(ts: i64) -> (y: i32)
    requires
        MIN_UTC_TIMESTAMP <= ts <= MAX_UTC_TIMESTAMP,
    ensures
        is_year_of(y as int, ts as int),
        y as int == year_of(ts as int),
{
    assert(leaps_through(1969) == 477);
    assert(leaps_through(-262144) == -63570);
    assert(leaps_through(262142) == 63569);
    assert(days_before_year(MIN_YEAR as int) * 86400 == MIN_UTC_TIMESTAMP);
    assert(days_before_year(MAX_YEAR as int + 1) * 86400 == MAX_UTC_TIMESTAMP + 1);
    let mut lo: i32 = MIN_YEAR;
    let mut hi: i32 = MAX_YEAR;
    while lo < hi
        invariant
            MIN_YEAR <= lo <= hi <= MAX_YEAR,
            days_before_year(lo as int) * 86400 <= ts,
            ts < days_before_year(hi as int + 1) * 86400,
        decreases hi - lo,
    {
        let mid: i32 = lo + (hi - lo + 1) / 2;
        let start = days_before_year_exec(mid);
        proof {
            lemma_years_in_range(mid as int);
        }
        if start * 86400 <= ts {
            lo = mid;
        } else {
            assert(ts < start * 86400);
            hi = mid - 1;
        }
    }
    proof {
        assert(is_year_of(lo as int, ts as int));
        let c = choose|y: int| is_year_of(y, ts as int);
        lemma_year_unique(lo as int, c, ts as int);
    }
    lo
}

/// An instant the system clock can report through `chrono::Utc::now`: not
/// before the Unix epoch (`Utc::now` refuses a clock set earlier) and
/// within the range `chrono` represents.
pub open spec fn clock_reading(now: int) -> bool {
    0 <= now <= MAX_UTC_TIMESTAMP
}

/// `chrono::Utc::now().timestamp()`: the current instant as a Unix
/// timestamp in seconds. The contract claims that the instant is one the
/// clock can report (`Utc::now` panics on a system clock before the Unix
/// epoch, and a `DateTime<Utc>` lies in the range `chrono` represents);
/// which instant it is depends on the clock and is left unsaid.
#[verifier::external_body]
fn utc_now_timestamp() -> (r: i64)
    ensures
        MIN_UTC_TIMESTAMP <= r <= MAX_UTC_TIMESTAMP,
        clock_reading(r as int),
{
    chrono::Utc::now().timestamp()
}

/// The current instant as a Unix timestamp in seconds, with its calendar
/// year.
pub(crate) fn utc_now() -> (r: (i64, i32))
    ensures
        clock_reading(r.0 as int),
        MIN_UTC_TIMESTAMP <= r.0 <= MAX_UTC_TIMESTAMP,
        is_year_of(r.1 as int, r.0 as int),
        r.1 as int == year_of(r.0 as int),
{
    let ts = utc_now_timestamp();
    (ts, year_of_timestamp(ts))
}

/// `chrono::Utc.with_ymd_and_hms(..).single()`, as a Unix timestamp: the
/// proleptic Gregorian date and time in UTC, `None` when the date or the
/// time does not exist or the year is outside the range `chrono`
/// represents.
#[verifier::external_body]
pub(crate) fn utc_timestamp(year: i32, month: u32, day: u32, hour: u32, minute: u32, second: u32) -> (r:
    Option<i64>)
    ensures
        as_int_option(r) == utc_datetime_timestamp(year, month, day, hour, minute, second),
{
    match chrono::Utc.with_ymd_and_hms(year, month, day, hour, minute, second).single() {
        Some(t) => Some(t.timestamp()),
        None => None,
    }
}

/// The Unix timestamp of an RFC 3339 date and time, as `chrono` parses
/// it, or `None` where `chrono` rejects the text.
pub uninterp spec fn rfc3339_timestamp(s: Seq<char>) -> Option<i64>;

/// Whether `elapsed` whole seconds (`TimeDelta::num_seconds`, which rounds
/// toward zero) can separate the instant of timestamp `t` from the clock
/// reading `now`: both instants carry a fraction of a second, so the
/// count is within one of `now - t`.
pub open spec fn seconds_between(t: int, now: int, elapsed: int) -> bool {
    now - t - 1 <= elapsed <= now - t + 1
}

/// `chrono::DateTime::parse_from_rfc3339(text)`, and for a parsed instant
/// its Unix timestamp (`timestamp()`) and the whole seconds from it to
/// `chrono::Utc::now()` (`signed_duration_since(..).num_seconds()`). The
/// contract ties the parse and the timestamp to the text (named:
/// `rfc3339_timestamp`), and the elapsed seconds to a reading the clock
/// can give; which reading it was depends on the clock and is left unsaid.
#[verifier::external_body]
pub(crate) fn rfc3339_age(text: &str) -> (r: Option<(i64, i64)>)
    ensures
        r is Some <==> rfc3339_timestamp(text@) is Some,
        r matches Some(p) ==> rfc3339_timestamp(text@) == Some(p.0),
        r matches Some(p) ==> exists|now: int|
            clock_reading(now) && #[trigger] seconds_between(p.0 as int, now, p.1 as int),
{
    match chrono::DateTime::parse_from_rfc3339(text) {
        Ok(parsed) => {
            let at = parsed.with_timezone(&chrono::Utc);
            Some((at.timestamp(), chrono::Utc::now().signed_duration_since(at).num_seconds()))
        },
        Err(_) => None,
    }
}

} // verus!
