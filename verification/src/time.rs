//! Points in time, as plain values.
use vstd::prelude::*;

verus! {

/// A UTC point in time: whole seconds since the Unix epoch and the
/// nanoseconds within that second.
#[derive(Clone, Copy, Debug, PartialEq, Eq, Structural)]
pub struct Timestamp {
    pub secs: i64,
    pub nanos: u32,
}

impl Timestamp {
    /// `self` is strictly earlier than `other`.
    pub open spec fn before(self, other: Timestamp) -> bool {
        self.secs < other.secs || (self.secs == other.secs && self.nanos < other.nanos)
    }

    /// The point `secs` seconds and `nanos` nanoseconds after the epoch.
    pub fn from_unix(secs: i64, nanos: u32) -> (t: Timestamp)
        ensures
            t.secs == secs,
            t.nanos == nanos,
    {
        Timestamp { secs, nanos }
    }

    /// `self` is strictly earlier than `other`.
    pub fn is_before(&self, other: &Timestamp) -> (b: bool)
        ensures
            b == self.before(*other),
    {
        self.secs < other.secs || (self.secs == other.secs && self.nanos < other.nanos)
    }
}

/// The number of leap years of the Gregorian calendar (years divisible by 4,
/// except those divisible by 100 but not by 400) from year 0 up to, not
/// including, `year`; a count that goes below zero before year 0.
pub open spec fn leap_years_before(year: int) -> int {
    (year - 1) / 4 - (year - 1) / 100 + (year - 1) / 400
}

/// The days from 1970-01-01 to January 1 of `year`, negative for earlier years.
pub open spec fn days_before_year(year: int) -> int {
    365 * (year - 1970) + leap_years_before(year) - leap_years_before(1970)
}

/// The second since the epoch at which `year` begins, 00:00:00 UTC on January 1.
pub open spec fn year_start_secs(year: int) -> int {
    days_before_year(year) * 86400
}

/// The second `secs` falls within `year`.
pub open spec fn in_year(secs: int, year: int) -> bool {
    year_start_secs(year) <= secs < year_start_secs(year + 1)
}

/// The first year that dates can name: the calendar runs from the start of
/// this year to the start of `LAST_YEAR + 1`.
pub const FIRST_YEAR: i64 = -262143;

/// The last year that dates can name.
pub const LAST_YEAR: i64 = 262142;

/// `t` lies in the years that dates can name.
pub open spec fn in_calendar(t: Timestamp) -> bool {
    year_start_secs(FIRST_YEAR as int) <= t.secs < year_start_secs(LAST_YEAR + 1)
}

/// The year that the second `secs` falls within.
pub open spec fn year_of(secs: int) -> int {
    choose|y: int| in_year(secs, y)
}

/// The same moment of the day and the same nanosecond on January 1 of the
/// year `t` falls within.
pub open spec fn start_of_year(t: Timestamp) -> Timestamp {
    Timestamp {
        secs: (year_start_secs(year_of(t.secs as int)) + t.secs % 86400) as i64,
        nanos: t.nanos,
    }
}

proof fn lemma_floor_step_4(y: int)
    ensures
        (y % 4 == 0 && y / 4 - (y - 1) / 4 == 1) || (y % 4 != 0 && y / 4 - (y - 1) / 4 == 0),
{
}

proof fn lemma_floor_step_100(y: int)
    ensures
        (y % 100 == 0 && y / 100 - (y - 1) / 100 == 1) || (y % 100 != 0 && y / 100 - (y - 1) / 100 == 0),
        y % 100 == 0 ==> y % 4 == 0,
{
}

proof fn lemma_floor_step_400(y: int)
    ensures
        (y % 400 == 0 && y / 400 - (y - 1) / 400 == 1) || (y % 400 != 0 && y / 400 - (y - 1) / 400 == 0),
        y % 400 == 0 ==> y % 100 == 0,
{
}

proof fn lemma_leap_step(y: int)
    ensures
        days_before_year(y + 1) - days_before_year(y) == 365 || days_before_year(y + 1)
            - days_before_year(y) == 366,
{
    lemma_floor_step_4(y);
    lemma_floor_step_100(y);
    lemma_floor_step_400(y);
}

/// Years begin later the later they are: a later year begins at least 365
/// days after an earlier one.
pub proof fn lemma_years_ordered(a: int, b: int)
    requires
        a < b,
    ensures
        days_before_year(a) + 365 * (b - a) <= days_before_year(b),
        year_start_secs(a) < year_start_secs(b),
    decreases b - a,
{
    lemma_leap_step(b - 1);
    if a < b - 1 {
        lemma_years_ordered(a, b - 1);
    }
}

/// Each second falls within exactly one year.
pub proof fn lemma_one_year(secs: int, y1: int, y2: int)
    requires
        in_year(secs, y1),
        in_year(secs, y2),
    ensures
        y1 == y2,
{
    if y1 < y2 {
        if y1 + 1 < y2 {
            lemma_years_ordered(y1 + 1, y2);
        }
    } else if y2 < y1 {
        if y2 + 1 < y1 {
            lemma_years_ordered(y2 + 1, y1);
        }
    }
}

fn year_start_seconds(year: i64) -> (s: i64)
    requires
        FIRST_YEAR <= year <= LAST_YEAR + 1,
    ensures
        s == year_start_secs(year as int),
{
    let p: i64 = year - 1;
    let q4: i64 = match p.checked_div_euclid(4) {
        Some(q) => q,
        None => 0,
    };
    let q100: i64 = match p.checked_div_euclid(100) {
        Some(q) => q,
        None => 0,
    };
    let q400: i64 = match p.checked_div_euclid(400) {
        Some(q) => q,
        None => 0,
    };
    assert(leap_years_before(1970) == 477);
    let days: i64 = 365 * (year - 1970) + q4 - q100 + q400 - 477;
    days * 86400
}

/// January 1 of the year `t` falls within, at the same time of day: the
/// start of the period an income statement for `t` covers.
pub fn year_start(t: Timestamp) -> (r: Timestamp)
    requires
        in_calendar(t),
    ensures
        in_year(t.secs as int, year_of(t.secs as int)),
        r == start_of_year(t),
{
    let mut lo: i64 = FIRST_YEAR;
    let mut hi: i64 = LAST_YEAR + 1;
    while hi - lo > 1
        invariant
            FIRST_YEAR <= lo < hi <= LAST_YEAR + 1,
            year_start_secs(lo as int) <= t.secs < year_start_secs(hi as int),
        decreases hi - lo,
    {
        let mid: i64 = lo + (hi - lo) / 2;
        if year_start_seconds(mid) <= t.secs {
            lo = mid;
        } else {
            hi = mid;
        }
    }
    proof {
        assert(in_year(t.secs as int, lo as int));
        lemma_one_year(t.secs as int, lo as int, year_of(t.secs as int));
    }
    let start: i64 = year_start_seconds(lo);
    let time_of_day: i64 = match t.secs.checked_rem_euclid(86400) {
        Some(d) => d,
        None => 0,
    };
    Timestamp { secs: start + time_of_day, nanos: t.nanos }
}

/// Calls `chrono::Utc::now` and returns the current time as seconds since
/// the epoch and nanoseconds; nothing is claimed of the value but that it
/// lies between `DateTime::<Utc>::MIN_UTC` and `MAX_UTC`, as every
/// `DateTime<Utc>` does.
#[verifier::external_body]
pub(crate) fn now() -> (t: Timestamp)
    ensures
        in_calendar(t),
{
    let t = chrono::Utc::now();
    Timestamp { secs: t.timestamp(), nanos: t.timestamp_subsec_nanos() }
}

} // verus!
