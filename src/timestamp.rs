use vstd::prelude::*;

verus! {

/// A moment as calendar fields, read as UTC.
#[derive(Clone, Copy, Debug, PartialEq, Eq)]
pub struct CivilTime {
    pub year: i32,
    pub month: u8,
    pub day: u8,
    pub hour: u8,
    pub minute: u8,
    pub second: u8,
}

impl CivilTime {
    /// Every field lies in its calendar range (years as the `time` crate bounds them).
    pub open spec fn wf(&self) -> bool {
        &&& -9999 <= self.year <= 9999
        &&& 1 <= self.month <= 12
        &&& 1 <= self.day <= 31
        &&& self.hour < 24
        &&& self.minute < 60
        &&& self.second < 60
    }

    /// Seconds from 1970-01-01T00:00:00Z to this moment.
    pub open spec fn epoch_seconds(&self) -> int {
        days_from_civil(self.year as int, self.month as int, self.day as int) * 86400
            + self.hour as int * 3600 + self.minute as int * 60 + self.second as int
    }

    /// Seconds since the Unix epoch.
    pub fn unix_timestamp(&self) -> (r: i64)
        requires
            self.wf(),
        ensures
            r as int == self.epoch_seconds(),
    {
        let days = days_from_civil_exec(self.year, self.month, self.day);
        proof {
            assert(-5000000 * 86400 <= days * 86400 <= 5000000 * 86400) by (nonlinear_arith)
                requires
                    -5000000 <= days <= 5000000,
            ;
        }
        days * 86400 + self.hour as i64 * 3600 + self.minute as i64 * 60 + self.second as i64
    }
}

/// Is `y` a leap year of the proleptic Gregorian calendar?
pub open spec fn is_leap(y: int) -> bool {
    (y % 4 == 0 && y % 100 != 0) || y % 400 == 0
}

/// Leap years from year 1 to year `y - 1` (negative for years before 1).
pub open spec fn leaps_before(y: int) -> int {
    (y - 1) / 4 - (y - 1) / 100 + (y - 1) / 400
}

/// Days from January 1 to the first of month `m` in a common year.
pub open spec fn common_days_before_month(m: int) -> int {
    if m <= 1 { 0 }
    else if m == 2 { 31 }
    else if m == 3 { 59 }
    else if m == 4 { 90 }
    else if m == 5 { 120 }
    else if m == 6 { 151 }
    else if m == 7 { 181 }
    else if m == 8 { 212 }
    else if m == 9 { 243 }
    else if m == 10 { 273 }
    else if m == 11 { 304 }
    else { 334 }
}

/// Days from January 1 of year `y` to the first of month `m`.
pub open spec fn days_before_month(y: int, m: int) -> int {
    common_days_before_month(m) + if m > 2 && is_leap(y) { 1int } else { 0int }
}

/// Days from 1970-01-01 to the proleptic Gregorian date `y-m-d`: 365 for
/// each year between, one more for each leap year between, then the days of
/// the months before `m`, then `d - 1`.
pub open spec fn days_from_civil(y: int, m: int, d: int) -> int {
    365 * (y - 1970) + leaps_before(y) - leaps_before(1970) + days_before_month(y, m) + d - 1
}

fn common_days_before_month_exec(m: u8) -> (r: i64)
    ensures
        r as int == common_days_before_month(m as int),
{
    if m <= 1 { 0 }
    else if m == 2 { 31 }
    else if m == 3 { 59 }
    else if m == 4 { 90 }
    else if m == 5 { 120 }
    else if m == 6 { 151 }
    else if m == 7 { 181 }
    else if m == 8 { 212 }
    else if m == 9 { 243 }
    else if m == 10 { 273 }
    else if m == 11 { 304 }
    else { 334 }
}

fn days_from_civil_exec(y: i32, m: u8, d: u8) -> (r: i64)
    requires
        -9999 <= y <= 9999,
        1 <= m <= 12,
        1 <= d <= 31,
    ensures
        r as int == days_from_civil(y as int, m as int, d as int),
        -5000000 <= r <= 5000000,
{
    // Years shifted by 10000, a multiple of 400, so that every quotient and
    // remainder is of a non-negative number.
    let ys: i64 = y as i64 - 1 + 10000;
    let yl: i64 = y as i64 + 10000;
    proof {
        let x = y as int - 1;
        assert((x + 4 * 2500) / 4 == x / 4 + 2500);
        assert((x + 100 * 100) / 100 == x / 100 + 100);
        assert((x + 400 * 25) / 400 == x / 400 + 25);
        assert((y as int + 4 * 2500) % 4 == (y as int) % 4);
        assert((y as int + 100 * 100) % 100 == (y as int) % 100);
        assert((y as int + 400 * 25) % 400 == (y as int) % 400);
    }
    let leaps: i64 = ys / 4 - ys / 100 + ys / 400 - (2500 - 100 + 25);
    let leap: bool = (yl % 4 == 0 && yl % 100 != 0) || yl % 400 == 0;
    let extra: i64 = if m > 2 && leap { 1 } else { 0 };
    let before: i64 = common_days_before_month_exec(m) + extra;
    assert(leaps_before(1970) == 477);
    365 * (y as i64 - 1970) + leaps - 477 + before + d as i64 - 1
}

/// The calendar fields that reading `s` by the format description
/// `description` (syntax version 1) gives; `None` where the description is
/// invalid or `s` does not match it.
pub uninterp spec fn civil_fields_of(s: Seq<char>, description: Seq<char>) -> Option<CivilTime>;

/// Days in month `m` of year `y`.
pub open spec fn days_in_month(y: int, m: int) -> int {
    if m == 2 {
        if is_leap(y) { 29 } else { 28 }
    } else if m == 4 || m == 6 || m == 9 || m == 11 {
        30
    } else {
        31
    }
}

pub open spec fn digit(n: int) -> char {
    (n + 48) as char
}

/// `n`, below 100, in two digits.
pub open spec fn two_digits(n: int) -> Seq<char> {
    seq![digit(n / 10), digit(n % 10)]
}

/// `n`, below 10000, in four digits.
pub open spec fn four_digits(n: int) -> Seq<char> {
    seq![digit(n / 1000), digit(n / 100 % 10), digit(n / 10 % 10), digit(n % 10)]
}

/// English abbreviation of month `m`.
pub open spec fn month_abbr(m: int) -> Seq<char> {
    if m == 1 { "Jan"@ }
    else if m == 2 { "Feb"@ }
    else if m == 3 { "Mar"@ }
    else if m == 4 { "Apr"@ }
    else if m == 5 { "May"@ }
    else if m == 6 { "Jun"@ }
    else if m == 7 { "Jul"@ }
    else if m == 8 { "Aug"@ }
    else if m == 9 { "Sep"@ }
    else if m == 10 { "Oct"@ }
    else if m == 11 { "Nov"@ }
    else { "Dec"@ }
}

/// English abbreviation of the weekday `days` days after 1970-01-01, a Thursday.
pub open spec fn weekday_abbr(days: int) -> Seq<char> {
    let w = (days + 3) % 7;
    if w == 0 { "Mon"@ }
    else if w == 1 { "Tue"@ }
    else if w == 2 { "Wed"@ }
    else if w == 3 { "Thu"@ }
    else if w == 4 { "Fri"@ }
    else if w == 5 { "Sat"@ }
    else { "Sun"@ }
}

/// `c` names a moment of the calendar that RFC 2822 can write: a real date
/// of a year from 1900 to 9999, and a time of day.
pub open spec fn rfc2822_writable(c: CivilTime) -> bool {
    &&& 1900 <= c.year <= 9999
    &&& 1 <= c.month <= 12
    &&& 1 <= c.day <= days_in_month(c.year as int, c.month as int)
    &&& c.hour < 24
    &&& c.minute < 60
    &&& c.second < 60
}

/// The RFC 2822 text of the moment `c` read as UTC, for instance
/// `Tue, 05 Jan 2021 15:04:00 +0000`; `None` where it cannot be written.
pub open spec fn rfc2822_of(c: CivilTime) -> Option<Seq<char>> {
    if rfc2822_writable(c) {
        Some(
            weekday_abbr(days_from_civil(c.year as int, c.month as int, c.day as int)) + ", "@
                + two_digits(c.day as int) + " "@ + month_abbr(c.month as int) + " "@ + four_digits(
                c.year as int,
            ) + " "@ + two_digits(c.hour as int) + ":"@ + two_digits(c.minute as int) + ":"@
                + two_digits(c.second as int) + " +0000"@,
        )
    } else {
        None
    }
}

/// Relies on `time::format_description::parse_owned` (version 1),
/// `time::PlainDateTime::parse` and its field getters: the fields of `s` read
/// by `description`. The getters keep years in -9999..=9999 (the range without
/// the `large-dates` feature) and every other field in its calendar range.
#[verifier::external_body]
pub(crate) fn parse_civil(s: &str, description: &str) -> (r: Option<CivilTime>)
    ensures
        r == civil_fields_of(s@, description@),
        r is Some ==> r->0.wf(),
{
    let f = time::format_description::parse_owned::<1>(description).ok()?;
    let t = time::PlainDateTime::parse(s, &f).ok()?;
    Some(CivilTime {
        year: t.year(),
        month: t.month() as u8,
        day: t.day(),
        hour: t.hour(),
        minute: t.minute(),
        second: t.second(),
    })
}

/// Relies on `time::OffsetDateTime::format` with `Rfc2822`, on the moment
/// built by `Month::try_from`, `Date::from_calendar_date`, `Time::from_hms`
/// and `PlainDateTime::assume_utc`. These refuse a month, day or time out of
/// range; the format refuses years before 1900, and writes the weekday and
/// month as three letters, the day, hour, minute and second in two digits,
/// the year in four, and the UTC offset as `+0000`.
#[verifier::external_body]
pub(crate) fn rfc2822_text(c: &CivilTime) -> (r: Option<String>)
    ensures
        r is Some <==> rfc2822_of(*c) is Some,
        r is Some ==> r->0@ == rfc2822_of(*c)->0,
{
    let month = time::Month::try_from(c.month).ok()?;
    let date = time::Date::from_calendar_date(c.year, month, c.day).ok()?;
    let t = time::Time::from_hms(c.hour, c.minute, c.second).ok()?;
    let moment = time::PlainDateTime::new(date, t).assume_utc();
    moment.format(&time::format_description::well_known::Rfc2822).ok()
}

/// A timestamp written as `description` says: its RFC 2822 text and its
/// seconds since the Unix epoch, read as UTC.
pub open spec fn timestamp_of(s: Seq<char>, description: Seq<char>) -> Option<(Seq<char>, int)> {
    match civil_fields_of(s, description) {
        Some(c) => match rfc2822_of(c) {
            Some(text) => Some((text, c.epoch_seconds())),
            None => None,
        },
        None => None,
    }
}

/// Reads a timestamp by the format description `description`, as UTC: its
/// RFC 2822 text and its seconds since the Unix epoch.
pub fn parse_timestamp(s: &str, description: &str) -> (r: Option<(String, i64)>)
    ensures
        r is Some <==> timestamp_of(s@, description@) is Some,
        r is Some ==> (r->0).0@ == (timestamp_of(s@, description@)->0).0
            && (r->0).1 as int == (timestamp_of(s@, description@)->0).1,
{
    match parse_civil(s, description) {
        None => None,
        Some(c) => match rfc2822_text(&c) {
            None => None,
            Some(text) => Some((text, c.unix_timestamp())),
        },
    }
}

} // verus!
