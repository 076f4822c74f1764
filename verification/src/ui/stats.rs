//! The history page: totals per category over a range of days.

use crate::app::Preferences;
use crate::clock::date_minus_days;
use crate::clock::days_before;
use crate::clock::today;
use crate::clock::weekday_from_sunday;
use crate::clock::chrono_days_from_sunday;
use crate::clock::Date;
use crate::clock::Weekday;
use crate::stats::TimeStats;
use vstd::prelude::*;

verus! {

/// The ranges of days that the history page offers.
#[derive(Clone, Copy, Debug, PartialEq, Eq, Structural)]
pub enum DateRangeOption {
    Today,
    ThisWeek,
    LastWeek,
    Past7Days,
    Past30Days,
    Mtd,
    Qtd,
    Ytd,
    LastYear,
    AllTime,
}

impl Default for DateRangeOption {
    fn default() -> (range: DateRangeOption)
        ensures
            range == DateRangeOption::Today,
    {
        DateRangeOption::Today
    }
}

/// How many ranges there are to pick from.
pub const DATE_PICKER_LEN: usize = 10;

/// The day that the user's week starts on, counted from Sunday as 0;
/// Sunday if none was chosen.
pub open spec fn week_start(chosen: Option<Weekday>) -> u32 {
    match chosen {
        Some(day) => day.days_from_sunday(),
        None => 0,
    }
}

/// How many days `date` lies after the start of its week, for a week that
/// starts on day `start`. Where the day of the week of `date` has a lower
/// number than `start`, the difference wraps around as a `u32` does.
pub open spec fn days_into_week(date: Date, start: u32) -> u32 {
    let weekday = chrono_days_from_sunday(date.year as int, date.month as int, date.day as int);
    if weekday >= start {
        (weekday - start) as u32
    } else {
        (weekday - start + 0x1_0000_0000) as u32
    }
}

/// The first day of the same month.
pub open spec fn first_of_month(date: Date) -> Option<Date> {
    Date::of(date.year as int, date.month as int, 1)
}

impl DateRangeOption {
    /// The place of the range in the order in which the ranges are
    /// offered.
    pub open spec fn place(self) -> int {
        match self {
            DateRangeOption::Today => 0,
            DateRangeOption::ThisWeek => 1,
            DateRangeOption::LastWeek => 2,
            DateRangeOption::Past7Days => 3,
            DateRangeOption::Past30Days => 4,
            DateRangeOption::Mtd => 5,
            DateRangeOption::Qtd => 6,
            DateRangeOption::Ytd => 7,
            DateRangeOption::LastYear => 8,
            DateRangeOption::AllTime => 9,
        }
    }

    /// The range at place `place`, counted round and round.
    pub open spec fn at(place: int) -> DateRangeOption {
        let turn = place % 10;
        if turn == 0 {
            DateRangeOption::Today
        } else if turn == 1 {
            DateRangeOption::ThisWeek
        } else if turn == 2 {
            DateRangeOption::LastWeek
        } else if turn == 3 {
            DateRangeOption::Past7Days
        } else if turn == 4 {
            DateRangeOption::Past30Days
        } else if turn == 5 {
            DateRangeOption::Mtd
        } else if turn == 6 {
            DateRangeOption::Qtd
        } else if turn == 7 {
            DateRangeOption::Ytd
        } else if turn == 8 {
            DateRangeOption::LastYear
        } else {
            DateRangeOption::AllTime
        }
    }

    /// The place of the range in the order in which the ranges are
    /// offered.
    pub fn position(&self) -> (place: usize)
        ensures
            place == self.place(),
            place < DATE_PICKER_LEN,
    {
        match self {
            DateRangeOption::Today => 0,
            DateRangeOption::ThisWeek => 1,
            DateRangeOption::LastWeek => 2,
            DateRangeOption::Past7Days => 3,
            DateRangeOption::Past30Days => 4,
            DateRangeOption::Mtd => 5,
            DateRangeOption::Qtd => 6,
            DateRangeOption::Ytd => 7,
            DateRangeOption::LastYear => 8,
            DateRangeOption::AllTime => 9,
        }
    }

    /// The range at place `place` of the order, counted round and round.
    pub fn nth(place: usize) -> (range: DateRangeOption)
        ensures
            range == DateRangeOption::at(place as int),
    {
        match place % 10 {
            0 => DateRangeOption::Today,
            1 => DateRangeOption::ThisWeek,
            2 => DateRangeOption::LastWeek,
            3 => DateRangeOption::Past7Days,
            4 => DateRangeOption::Past30Days,
            5 => DateRangeOption::Mtd,
            6 => DateRangeOption::Qtd,
            7 => DateRangeOption::Ytd,
            8 => DateRangeOption::LastYear,
            _ => DateRangeOption::AllTime,
        }
    }

    /// The range offered before this one; the last before the first.
    pub fn previous(&self) -> (range: DateRangeOption)
        ensures
            range == DateRangeOption::at(self.place() + 9),
    {
        DateRangeOption::nth(self.position() + DATE_PICKER_LEN - 1)
    }

    /// The range offered after this one; the first after the last.
    pub fn following(&self) -> (range: DateRangeOption)
        ensures
            range == DateRangeOption::at(self.place() + 1),
    {
        DateRangeOption::nth(self.position() + 1)
    }

    /// What the range is called on the page.
    pub open spec fn name(self) -> Seq<char> {
        match self {
            DateRangeOption::Today => "Today"@,
            DateRangeOption::ThisWeek => "This week"@,
            DateRangeOption::LastWeek => "Last week"@,
            DateRangeOption::Past7Days => "Past 7 days"@,
            DateRangeOption::Past30Days => "Past 30 days"@,
            DateRangeOption::Mtd => "MTD"@,
            DateRangeOption::Qtd => "QTD"@,
            DateRangeOption::Ytd => "YTD"@,
            DateRangeOption::LastYear => "Last year"@,
            DateRangeOption::AllTime => "All time"@,
        }
    }

    /// What the range is called on the page.
    pub fn label(&self) -> (text: String)
        ensures
            text@ == self.name(),
    {
        let text: &str = match self {
            DateRangeOption::Today => "Today",
            DateRangeOption::ThisWeek => "This week",
            DateRangeOption::LastWeek => "Last week",
            DateRangeOption::Past7Days => "Past 7 days",
            DateRangeOption::Past30Days => "Past 30 days",
            DateRangeOption::Mtd => "MTD",
            DateRangeOption::Qtd => "QTD",
            DateRangeOption::Ytd => "YTD",
            DateRangeOption::LastYear => "Last year",
            DateRangeOption::AllTime => "All time",
        };
        text.to_owned()
    }

    /// Whether the days of the range can be worked out for `today`: the
    /// ranges that reach back a week or thirty days need the day that
    /// many days before `today` to exist.
    pub open spec fn reaches(self, today: Date) -> bool {
        match self {
            DateRangeOption::LastWeek => days_before(today, 7).is_some(),
            DateRangeOption::Past7Days => days_before(today, 7).is_some(),
            DateRangeOption::Past30Days => days_before(today, 30).is_some(),
            _ => true,
        }
    }

    /// The first and the last day of the range as of `today`, both
    /// counted in; no first day means that the range is open to the past.
    ///
    /// This week runs from the last start of a week to today, and last
    /// week is the week before it; where its last day does not exist, the
    /// earliest date stands in. The past 7 and 30 days reach back that
    /// many days from today. The month to date starts on the first of the
    /// month, the year to date on the first of January. The quarter to
    /// date starts on the first of the month that `month0 - month0 % 4`
    /// names, provided that month has today's day of the month. Last year
    /// runs from its first of January to its 31st of December, provided
    /// that today's day and month exist last year; where they do not,
    /// there is no first day and the earliest date is the last.
    pub open spec fn days(self, start: u32, today: Date) -> (Option<Date>, Date) {
        match self {
            DateRangeOption::Today => (Some(today), today),
            DateRangeOption::ThisWeek => (
                days_before(today, days_into_week(today, start) as int),
                today,
            ),
            DateRangeOption::LastWeek => (
                days_before(
                    days_before(today, 7).unwrap(),
                    days_into_week(days_before(today, 7).unwrap(), start) as int,
                ),
                match days_before(today, 1 + days_into_week(today, start)) {
                    Some(end) => end,
                    None => Date::earliest(),
                },
            ),
            DateRangeOption::Past7Days => (days_before(today, 7), today),
            DateRangeOption::Past30Days => (days_before(today, 30), today),
            DateRangeOption::Mtd => (first_of_month(today), today),
            DateRangeOption::Qtd => (
                match Date::of(
                    today.year as int,
                    (today.month - 1) - (today.month - 1) % 4 + 1,
                    today.day as int,
                ) {
                    Some(date) => first_of_month(date),
                    None => None,
                },
                today,
            ),
            DateRangeOption::Ytd => (Date::of(today.year as int, 1, 1), today),
            DateRangeOption::LastYear => match Date::of(
                today.year - 1,
                today.month as int,
                today.day as int,
            ) {
                Some(_) => (
                    Date::of(today.year - 1, 1, 1),
                    match Date::of(today.year - 1, 12, 31) {
                        Some(end) => end,
                        None => Date::earliest(),
                    },
                ),
                None => (None, Date::earliest()),
            },
            DateRangeOption::AllTime => (None, today),
        }
    }

    /// The first and the last day of the range as of `today`, both counted
    /// in, for the week that the user's preferences have.
    pub fn to_naive_dates(self, prefs: &Preferences, today: Date) -> (range: (Option<Date>, Date))
        requires
            today.wf(),
            self.reaches(today),
        ensures
            range == self.days(week_start(prefs.week_start_day), today),
    {
        let start: u32 = match prefs.week_start_day {
            Some(day) => day.num_days_from_sunday(),
            None => 0,
        };
        match self {
            DateRangeOption::Today => (Some(today), today),
            DateRangeOption::ThisWeek => {
                let into: u32 = weekday_from_sunday(today).wrapping_sub(start);
                (date_minus_days(today, into as u64), today)
            },
            DateRangeOption::LastWeek => {
                let week_ago: Date = date_minus_days(today, 7).unwrap();
                let into_then: u32 = weekday_from_sunday(week_ago).wrapping_sub(start);
                let start_of_last_week: Option<Date> = date_minus_days(week_ago, into_then as u64);
                let into_now: u32 = weekday_from_sunday(today).wrapping_sub(start);
                let end_of_last_week: Option<Date> = date_minus_days(today, 1 + into_now as u64);
                (
                    start_of_last_week,
                    match end_of_last_week {
                        Some(end) => end,
                        None => Date::min(),
                    },
                )
            },
            DateRangeOption::Past7Days => (date_minus_days(today, 7), today),
            DateRangeOption::Past30Days => (date_minus_days(today, 30), today),
            DateRangeOption::Mtd => (today.with_day(1), today),
            DateRangeOption::Qtd => {
                let month0: u32 = today.month - 1;
                (
                    match today.with_month0(month0 - month0 % 4) {
                        Some(date) => date.with_day(1),
                        None => None,
                    },
                    today,
                )
            },
            DateRangeOption::Ytd => (
                match today.with_month(1) {
                    Some(date) => date.with_day(1),
                    None => None,
                },
                today,
            ),
            DateRangeOption::LastYear => {
                let moved: Option<Date> = today.with_year(today.year - 1);
                (
                    match moved {
                        Some(date) => match date.with_month(1) {
                            Some(january) => january.with_day(1),
                            None => None,
                        },
                        None => None,
                    },
                    match moved {
                        Some(date) => match date.with_month(12) {
                            Some(december) => match december.with_day(31) {
                                Some(end) => end,
                                None => Date::min(),
                            },
                            None => Date::min(),
                        },
                        None => Date::min(),
                    },
                )
            },
            DateRangeOption::AllTime => (None, today),
        }
    }

    /// The first and the last day of the range as of `today`; nothing
    /// where the range reaches back further than dates go.
    pub fn checked_naive_dates(self, prefs: &Preferences, today: Date) -> (range: Option<
        (Option<Date>, Date),
    >)
        requires
            today.wf(),
        ensures
            range == (if self.reaches(today) {
                Some(self.days(week_start(prefs.week_start_day), today))
            } else {
                None
            }),
    {
        let back: u64 = match self {
            DateRangeOption::LastWeek => 7,
            DateRangeOption::Past7Days => 7,
            DateRangeOption::Past30Days => 30,
            _ => 0,
        };
        if date_minus_days(today, back).is_some() {
            Some(self.to_naive_dates(prefs, today))
        } else {
            None
        }
    }

    /// The first and the last day of the range as of the day that it is;
    /// nothing where the range reaches back further than dates go.
    pub fn to_native_dates_from_today(self, prefs: &Preferences) -> (range: Option<
        (Option<Date>, Date),
    >)
        ensures
            range matches Some(days) ==> exists|today: Date|
                today.wf() && self.reaches(today) && days == self.days(
                    week_start(prefs.week_start_day),
                    today,
                ),
            range is None ==> exists|today: Date| today.wf() && !self.reaches(today),
    {
        self.checked_naive_dates(prefs, today())
    }
}

/// Going on to the range after and back to the range before comes back to
/// where it began, either way round; and going on ten times goes once
/// round.
pub proof fn lemma_date_ranges_go_round(range: DateRangeOption)
    ensures
        DateRangeOption::at(range.place()) == range,
        DateRangeOption::at(DateRangeOption::at(range.place() + 1).place() + 9) == range,
        DateRangeOption::at(DateRangeOption::at(range.place() + 9).place() + 1) == range,
        DateRangeOption::at(range.place() + 10) == range,
{
}

/// The totals on show, the range they were asked for, and the days they
/// cover: the earliest day that had a file, if any, and the last day of the
/// range.
#[derive(Debug)]
pub struct State {
    pub time_stats: [TimeStats; 8],
    pub date_range: DateRangeOption,
    pub min_date: Option<Date>,
    pub max_date: Date,
}

impl State {
    /// The page for `date_range` with what was loaded for it.
    pub fn new(
        time_stats: [TimeStats; 8],
        date_range: DateRangeOption,
        min_date: Option<Date>,
        max_date: Date,
    ) -> (state: State)
        ensures
            state.time_stats == time_stats,
            state.date_range == date_range,
            state.min_date == min_date,
            state.max_date == max_date,
    {
        State { time_stats, date_range, min_date, max_date }
    }
}

} // verus!
