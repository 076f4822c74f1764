//! Instants on the time line, as the rest of the library sees them.

use vstd::prelude::*;

verus! {

/// Nanoseconds in one second.
pub const NANOS_PER_SEC: u32 = 1_000_000_000;

/// An instant: whole seconds since the Unix epoch and the nanoseconds into
/// that second. Instants are ordered by seconds first and nanoseconds
/// second.
#[derive(Clone, Copy, Debug, PartialEq, Eq, PartialOrd, Ord, Structural)]
pub struct Timestamp {
    pub secs: i64,
    pub nanos: u32,
}

impl Timestamp {
    /// The instant as one number: nanoseconds since the Unix epoch.
    pub open spec fn as_nanos(self) -> int {
        self.secs * (NANOS_PER_SEC as int) + self.nanos
    }

    /// `self` is not later than `other`, comparing seconds first and
    /// nanoseconds second.
    pub open spec fn spec_le(self, other: Timestamp) -> bool {
        self.secs < other.secs || (self.secs == other.secs && self.nanos <= other.nanos)
    }

    /// The instant `nanos` nanoseconds into second `secs` since the Unix
    /// epoch.
    pub fn new(secs: i64, nanos: u32) -> (t: Timestamp)
        ensures
            t.secs == secs,
            t.nanos == nanos,
    {
        Timestamp { secs, nanos }
    }

    /// The nanoseconds are less than a second: the instant is not inside
    /// a leap second.
    pub open spec fn wf(self) -> bool {
        self.nanos < NANOS_PER_SEC
    }

    /// The time from `earlier` to `self`; negative if `earlier` is the
    /// later of the two.
    pub fn since(&self, earlier: &Timestamp) -> (span: Span)
        requires
            self.wf(),
            earlier.wf(),
            Span::in_range(self.as_nanos() - earlier.as_nanos()),
        ensures
            span.fits(),
            span.as_nanos() == self.as_nanos() - earlier.as_nanos(),
    {
        Span::settled(self.secs - earlier.secs, self.nanos as i64 - earlier.nanos as i64)
    }

    /// Whether `self` is not later than `other`.
    pub fn le(&self, other: &Timestamp) -> (r: bool)
        ensures
            r == self.spec_le(*other),
    {
        self.secs < other.secs || (self.secs == other.secs && self.nanos <= other.nanos)
    }
}

/// A signed length of time: whole seconds, rounded towards zero, and the
/// nanoseconds beyond them, which have the sign of the whole.
#[derive(Clone, Copy, Debug, PartialEq, Eq, Structural)]
pub struct Span {
    pub secs: i64,
    pub nanos: i32,
}

impl Span {
    /// The length as one number of nanoseconds.
    pub open spec fn as_nanos(self) -> int {
        self.secs * 1_000_000_000 + self.nanos
    }

    /// The nanoseconds are less than a second and pull the same way as the
    /// seconds.
    pub open spec fn wf(self) -> bool {
        &&& -1_000_000_000 < self.nanos < 1_000_000_000
        &&& self.secs > 0 ==> self.nanos >= 0
        &&& self.secs < 0 ==> self.nanos <= 0
    }

    /// Whether `nanos` nanoseconds are a length that can be held: at most
    /// `i64::MAX` milliseconds, forwards or backwards.
    pub open spec fn in_range(nanos: int) -> bool {
        -(i64::MAX as int) * 1_000_000 <= nanos <= (i64::MAX as int) * 1_000_000
    }

    /// The span is well formed and of a length that can be held.
    pub open spec fn fits(self) -> bool {
        self.wf() && Span::in_range(self.as_nanos())
    }

    /// No time at all.
    pub fn zero() -> (span: Span)
        ensures
            span == (Span { secs: 0, nanos: 0 }),
            span.fits(),
    {
        Span { secs: 0, nanos: 0 }
    }

    /// The span of `secs` seconds and `nanos` nanoseconds, which may pull
    /// apart or add up to more than a second.
    fn settled(secs: i64, nanos: i64) -> (span: Span)
        requires
            -2_000_000_000 < nanos < 2_000_000_000,
            -i64::MAX / 2 <= secs <= i64::MAX / 2,
        ensures
            span.wf(),
            span.as_nanos() == secs * 1_000_000_000 + nanos,
    {
        let mut s: i64 = secs;
        let mut n: i64 = nanos;
        if n >= 1_000_000_000 {
            s = s + 1;
            n = n - 1_000_000_000;
        } else if n <= -1_000_000_000 {
            s = s - 1;
            n = n + 1_000_000_000;
        }
        if s > 0 && n < 0 {
            s = s - 1;
            n = n + 1_000_000_000;
        } else if s < 0 && n > 0 {
            s = s + 1;
            n = n - 1_000_000_000;
        }
        Span { secs: s, nanos: n as i32 }
    }

    /// The two lengths together.
    pub fn plus(self, other: Span) -> (sum: Span)
        requires
            self.fits(),
            other.fits(),
            Span::in_range(self.as_nanos() + other.as_nanos()),
        ensures
            sum.fits(),
            sum.as_nanos() == self.as_nanos() + other.as_nanos(),
    {
        Span::settled(self.secs + other.secs, self.nanos as i64 + other.nanos as i64)
    }
}

/// A well-formed span is fixed by its length.
pub proof fn lemma_span_is_its_length(a: Span, b: Span)
    requires
        a.wf(),
        b.wf(),
        a.as_nanos() == b.as_nanos(),
    ensures
        a == b,
{
}

/// A day of the week.
#[derive(Clone, Copy, Debug, PartialEq, Eq, Structural)]
pub enum Weekday {
    Mon,
    Tue,
    Wed,
    Thu,
    Fri,
    Sat,
    Sun,
}

impl Weekday {
    /// The number of the day in a week that starts on Sunday with 0.
    pub open spec fn days_from_sunday(self) -> u32 {
        match self {
            Weekday::Sun => 0,
            Weekday::Mon => 1,
            Weekday::Tue => 2,
            Weekday::Wed => 3,
            Weekday::Thu => 4,
            Weekday::Fri => 5,
            Weekday::Sat => 6,
        }
    }

    /// The number of the day in a week that starts on Sunday with 0.
    pub fn num_days_from_sunday(&self) -> (n: u32)
        ensures
            n == self.days_from_sunday(),
            n < 7,
    {
        match self {
            Weekday::Sun => 0,
            Weekday::Mon => 1,
            Weekday::Tue => 2,
            Weekday::Wed => 3,
            Weekday::Thu => 4,
            Weekday::Fri => 5,
            Weekday::Sat => 6,
        }
    }
}

/// The first year that a date can lie in.
pub const MIN_YEAR: i32 = -262143;

/// The last year that a date can lie in.
pub const MAX_YEAR: i32 = 262142;

/// Whether `year` has a 29th of February.
pub open spec fn is_leap_year(year: int) -> bool {
    year % 4 == 0 && (year % 100 != 0 || year % 400 == 0)
}

/// How many days month `month` of `year` has; none if there is no such
/// month.
pub open spec fn days_in_month(year: int, month: int) -> int {
    if month == 2 {
        if is_leap_year(year) {
            29
        } else {
            28
        }
    } else if month == 4 || month == 6 || month == 9 || month == 11 {
        30
    } else if 1 <= month <= 12 {
        31
    } else {
        0
    }
}

/// Whether there is a day `day` of month `month` of `year`, in a year
/// that a date can lie in.
pub open spec fn is_date(year: int, month: int, day: int) -> bool {
    MIN_YEAR <= year <= MAX_YEAR && 1 <= day <= days_in_month(year, month)
}

/// A calendar day in the proleptic Gregorian calendar.
#[derive(Clone, Copy, Debug, PartialEq, Eq, PartialOrd, Ord, Structural)]
pub struct Date {
    pub year: i32,
    pub month: u32,
    pub day: u32,
}

impl Date {
    /// The day exists.
    pub open spec fn wf(self) -> bool {
        is_date(self.year as int, self.month as int, self.day as int)
    }

    /// The date with these numbers, if there is one.
    pub open spec fn of(year: int, month: int, day: int) -> Option<Date> {
        if is_date(year, month, day) {
            Some(Date { year: year as i32, month: month as u32, day: day as u32 })
        } else {
            None
        }
    }

    /// The earliest date: the first of January of the first year.
    pub open spec fn earliest() -> Date {
        Date { year: MIN_YEAR, month: 1, day: 1 }
    }

    /// The earliest date there is.
    pub fn min() -> (date: Date)
        ensures
            date == Date::earliest(),
            date.wf(),
    {
        Date { year: MIN_YEAR, month: 1, day: 1 }
    }

    /// The date with these numbers, if there is one.
    pub fn new(year: i32, month: u32, day: u32) -> (date: Option<Date>)
        ensures
            date == Date::of(year as int, month as int, day as int),
    {
        if year < MIN_YEAR || year > MAX_YEAR || month < 1 || month > 12 || day < 1 {
            return None;
        }
        let shifted: u32 = (year + 400_000) as u32;
        let leap: bool = shifted % 4 == 0 && (shifted % 100 != 0 || shifted % 400 == 0);
        let length: u32 = if month == 2 {
            if leap {
                29
            } else {
                28
            }
        } else if month == 4 || month == 6 || month == 9 || month == 11 {
            30
        } else {
            31
        };
        if day <= length {
            Some(Date { year, month, day })
        } else {
            None
        }
    }

    /// The same day of the same month in `year`, if there is one: there is
    /// no 29th of February in a year that is not a leap year.
    pub fn with_year(&self, year: i32) -> (date: Option<Date>)
        ensures
            date == Date::of(year as int, self.month as int, self.day as int),
    {
        Date::new(year, self.month, self.day)
    }

    /// The same day in month `month` of the same year, if there is one.
    pub fn with_month(&self, month: u32) -> (date: Option<Date>)
        ensures
            date == Date::of(self.year as int, month as int, self.day as int),
    {
        Date::new(self.year, month, self.day)
    }

    /// The same day in the month after `month0` months of the same year,
    /// if there is one.
    pub fn with_month0(&self, month0: u32) -> (date: Option<Date>)
        ensures
            date == Date::of(self.year as int, month0 + 1, self.day as int),
    {
        if month0 < 12 {
            Date::new(self.year, month0 + 1, self.day)
        } else {
            None
        }
    }

    /// Day `day` of the same month, if there is one.
    pub fn with_day(&self, day: u32) -> (date: Option<Date>)
        ensures
            date == Date::of(self.year as int, self.month as int, day as int),
    {
        Date::new(self.year, self.month, day)
    }
}

/// What `chrono` gives as the day of the week of a date, counted from
/// Sunday as 0.
pub uninterp spec fn chrono_days_from_sunday(year: int, month: int, day: int) -> int;

/// What `chrono` gives as the date `days` days before a date, as year,
/// month and day; nothing where `chrono` has no such date.
pub uninterp spec fn chrono_days_before(year: int, month: int, day: int, days: int) -> Option<
    (int, int, int),
>;

/// The date `days` days before `date`, where `chrono` has one.
pub open spec fn days_before(date: Date, days: int) -> Option<Date> {
    match chrono_days_before(date.year as int, date.month as int, date.day as int, days) {
        Some((year, month, day)) => Some(
            Date { year: year as i32, month: month as u32, day: day as u32 },
        ),
        None => None,
    }
}

/// The day of the week of `date`: `NaiveDate::weekday` and then
/// `Weekday::num_days_from_sunday`, which counts from Sunday as 0 up to
/// Saturday as 6.
#[verifier::external_body]
pub(crate) fn weekday_from_sunday(date: Date) -> (n: u32)
    requires
        date.wf(),
    ensures
        n == chrono_days_from_sunday(date.year as int, date.month as int, date.day as int),
        n < 7,
{
    let day = chrono::NaiveDate::from_ymd_opt(date.year, date.month, date.day).unwrap();
    chrono::Datelike::weekday(&day).num_days_from_sunday()
}

/// The date `days` days before `date`: `NaiveDate::checked_sub_days`,
/// which gives nothing where the date would be out of range, and nothing
/// at all for more days than an `i32` holds. No days before a date is the
/// date itself. A date that comes back exists.
#[verifier::external_body]
pub(crate) fn date_minus_days(date: Date, days: u64) -> (earlier: Option<Date>)
    requires
        date.wf(),
    ensures
        earlier == days_before(date, days as int),
        earlier matches Some(found) ==> found.wf() && chrono_days_before(
            date.year as int,
            date.month as int,
            date.day as int,
            days as int,
        ) == Some((found.year as int, found.month as int, found.day as int)),
        days == 0 ==> earlier == Some(date),
        days > i32::MAX ==> earlier.is_none(),
{
    let day = chrono::NaiveDate::from_ymd_opt(date.year, date.month, date.day).unwrap();
    day.checked_sub_days(chrono::Days::new(days)).map(
        |d| Date {
            year: chrono::Datelike::year(&d),
            month: chrono::Datelike::month(&d),
            day: chrono::Datelike::day(&d),
        },
    )
}

/// The calendar day that it is, here and now: `chrono::Local::now` and
/// then `DateTime::date_naive`. Which day comes back depends on the clock
/// and on the time zone; it is a day that exists.
#[verifier::external_body]
pub(crate) fn today() -> (date: Date)
    ensures
        date.wf(),
{
    let day = chrono::Local::now().date_naive();
    Date {
        year: chrono::Datelike::year(&day),
        month: chrono::Datelike::month(&day),
        day: chrono::Datelike::day(&day),
    }
}

/// The hour of `at` on the local clock: `Timelike::hour` on the
/// `DateTime<Local>` of `at`, which is documented to lie between 0 and 23.
/// Nothing comes back where `chrono` has no such instant. Which hour it is
/// depends on the time zone of the machine.
#[verifier::external_body]
pub(crate) fn local_hour(at: Timestamp) -> (hour: Option<u32>)
    ensures
        hour matches Some(h) ==> h <= 23,
{
    chrono::DateTime::from_timestamp(at.secs, at.nanos).map(
        |t| chrono::Timelike::hour(&t.with_timezone(&chrono::Local)),
    )
}

/// The minute of `at` on the local clock: `Timelike::minute`, which is
/// documented to lie between 0 and 59.
#[verifier::external_body]
pub(crate) fn local_minute(at: Timestamp) -> (minute: Option<u32>)
    ensures
        minute matches Some(m) ==> m <= 59,
{
    chrono::DateTime::from_timestamp(at.secs, at.nanos).map(
        |t| chrono::Timelike::minute(&t.with_timezone(&chrono::Local)),
    )
}

/// The second of `at` on the local clock: `Timelike::second`, which is
/// documented to lie between 0 and 59.
#[verifier::external_body]
pub(crate) fn local_second(at: Timestamp) -> (second: Option<u32>)
    ensures
        second matches Some(s) ==> s <= 59,
{
    chrono::DateTime::from_timestamp(at.secs, at.nanos).map(
        |t| chrono::Timelike::second(&t.with_timezone(&chrono::Local)),
    )
}

/// The instant at which the local clock shows the same as at `at` but for
/// the hour, which is `hour`: `Timelike::with_hour`. Whether there is such
/// an instant, and which, is left to `chrono` and the time zone.
#[verifier::external_body]
pub(crate) fn with_local_hour(at: Timestamp, hour: u32) -> (moved: Option<Timestamp>) {
    let local = chrono::DateTime::from_timestamp(at.secs, at.nanos)?.with_timezone(&chrono::Local);
    chrono::Timelike::with_hour(&local, hour).map(
        |t| Timestamp { secs: t.timestamp(), nanos: t.timestamp_subsec_nanos() },
    )
}

/// As `with_local_hour`, for the minute: `Timelike::with_minute`.
#[verifier::external_body]
pub(crate) fn with_local_minute(at: Timestamp, minute: u32) -> (moved: Option<Timestamp>) {
    let local = chrono::DateTime::from_timestamp(at.secs, at.nanos)?.with_timezone(&chrono::Local);
    chrono::Timelike::with_minute(&local, minute).map(
        |t| Timestamp { secs: t.timestamp(), nanos: t.timestamp_subsec_nanos() },
    )
}

/// As `with_local_hour`, for the second: `Timelike::with_second`.
#[verifier::external_body]
pub(crate) fn with_local_second(at: Timestamp, second: u32) -> (moved: Option<Timestamp>) {
    let local = chrono::DateTime::from_timestamp(at.secs, at.nanos)?.with_timezone(&chrono::Local);
    chrono::Timelike::with_second(&local, second).map(
        |t| Timestamp { secs: t.timestamp(), nanos: t.timestamp_subsec_nanos() },
    )
}

/// As `with_local_hour`, for the nanoseconds into the second:
/// `Timelike::with_nanosecond`. An instant that comes back is `nano`
/// nanoseconds into its second: `chrono` puts `nano` in place of the
/// nanoseconds and shifts between local time and UTC by whole seconds.
#[verifier::external_body]
pub(crate) fn with_local_nanosecond(at: Timestamp, nano: u32) -> (moved: Option<Timestamp>)
    ensures
        moved matches Some(t) ==> t.nanos == nano,
{
    let local = chrono::DateTime::from_timestamp(at.secs, at.nanos)?.with_timezone(&chrono::Local);
    chrono::Timelike::with_nanosecond(&local, nano).map(
        |t| Timestamp { secs: t.timestamp(), nanos: t.timestamp_subsec_nanos() },
    )
}

/// The calendar day of `at` on the local clock: the date of
/// `NaiveDateTime::checked_add_offset`, on the UTC date and time of the
/// `DateTime<Local>` of `at` and its offset from UTC. Nothing comes back
/// where `chrono` has no such instant, or where the offset takes the local
/// day beyond the days that `chrono` has; a day that comes back exists.
#[verifier::external_body]
pub(crate) fn local_date(at: Timestamp) -> (date: Option<Date>)
    ensures
        date matches Some(day) ==> day.wf(),
{
    let local = chrono::DateTime::from_timestamp(at.secs, at.nanos)?.with_timezone(&chrono::Local);
    let day = local.naive_utc().checked_add_offset(chrono::Offset::fix(local.offset()))?.date();
    Some(
        Date {
            year: chrono::Datelike::year(&day),
            month: chrono::Datelike::month(&day),
            day: chrono::Datelike::day(&day),
        },
    )
}

/// The instant one day after `at` on the local calendar, at the same time
/// of day: `DateTime::checked_add_days` with one day. Whether there is
/// such an instant, and which, is left to `chrono` and the time zone.
#[verifier::external_body]
pub(crate) fn next_local_day(at: Timestamp) -> (moved: Option<Timestamp>) {
    let local = chrono::DateTime::from_timestamp(at.secs, at.nanos)?.with_timezone(&chrono::Local);
    local.checked_add_days(chrono::Days::new(1)).map(
        |t| Timestamp { secs: t.timestamp(), nanos: t.timestamp_subsec_nanos() },
    )
}

/// Reads the system clock through `chrono::Local::now`.
///
/// Which instant comes back is not claimed: two calls may return anything,
/// in any order. It is never inside a leap second: `chrono` makes it from
/// the whole seconds of the system time and the nanoseconds beyond them,
/// which are less than a second.
#[verifier::external_body]
pub(crate) fn now() -> (t: Timestamp)
    ensures
        t.wf(),
{
    let t = chrono::Local::now();
    Timestamp { secs: t.timestamp(), nanos: t.timestamp_subsec_nanos() }
}

} // verus!
