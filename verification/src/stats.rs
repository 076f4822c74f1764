//! Totals per category over a set of entries.

use crate::clock::Date;
use crate::clock::Span;
use crate::entry::is_side;
use crate::entry::TimeLog;
use vstd::prelude::*;

verus! {

/// What was logged against one category: how many entries, how long in
/// all, and how long on average.
#[derive(Clone, Copy, Debug, PartialEq, Eq, Structural)]
pub struct TimeStats {
    pub task_number: u8,
    pub count: u16,
    pub total: Span,
    pub mean: Span,
}

impl Default for TimeStats {
    /// No entries, for no category.
    fn default() -> (stats: TimeStats)
        ensures
            stats.task_number == 0,
            stats.count == 0,
            stats.total == (Span { secs: 0, nanos: 0 }),
            stats.mean == (Span { secs: 0, nanos: 0 }),
    {
        TimeStats { task_number: 0, count: 0, total: Span::zero(), mean: Span::zero() }
    }
}

/// What `chrono` gives for a `TimeDelta` of `secs` whole seconds and `nanos`
/// nanoseconds beyond them, divided by `by`: the whole seconds and the
/// nanoseconds beyond them of the quotient.
pub uninterp spec fn time_delta_quotient(secs: int, nanos: int, by: int) -> (int, int);

/// Divides a length of time as `chrono` does: `TimeDelta / i32`, on the
/// `TimeDelta` of `total.secs` seconds and `total.nanos` nanoseconds. The
/// quotient is read off with `num_seconds` and `subsec_nanos`, which by
/// their definition give a well-formed span. How the quotient is rounded
/// is left to `chrono`.
#[verifier::external_body]
fn span_divided(total: Span, by: i32) -> (part: Span)
    requires
        total.fits(),
        by != 0,
    ensures
        part.wf(),
        (part.secs as int, part.nanos as int) == time_delta_quotient(
            total.secs as int,
            total.nanos as int,
            by as int,
        ),
{
    let whole = chrono::TimeDelta::seconds(total.secs) + chrono::TimeDelta::nanoseconds(
        total.nanos as i64,
    );
    let part = whole / by;
    Span { secs: part.num_seconds(), nanos: part.subsec_nanos() }
}

/// How long `entry` lasted, in nanoseconds; nothing while it is running.
pub open spec fn duration_nanos(entry: TimeLog) -> int {
    match entry.end {
        Some(end) => end.as_nanos() - entry.start.as_nanos(),
        None => 0,
    }
}

/// How many of `logs` are for category `number`.
pub open spec fn count_for(logs: Seq<TimeLog>, number: u8) -> nat
    decreases logs.len(),
{
    if logs.len() == 0 {
        0
    } else {
        count_for(logs.drop_last(), number) + (if logs.last().number == number {
            1nat
        } else {
            0nat
        })
    }
}

/// How long the entries of `logs` for category `number` lasted in all, in
/// nanoseconds.
pub open spec fn total_for(logs: Seq<TimeLog>, number: u8) -> int
    decreases logs.len(),
{
    if logs.len() == 0 {
        0
    } else {
        total_for(logs.drop_last(), number) + (if logs.last().number == number {
            duration_nanos(logs.last())
        } else {
            0
        })
    }
}

/// The mean of `count` entries that lasted `total` in all: nothing for no
/// entries, else the total divided by the count as `chrono` divides.
pub open spec fn mean_of(total: Span, count: u16) -> Span {
    if count == 0 {
        Span { secs: 0, nanos: 0 }
    } else {
        Span {
            secs: time_delta_quotient(total.secs as int, total.nanos as int, count as int).0 as i64,
            nanos: time_delta_quotient(total.secs as int, total.nanos as int, count as int).1 as i32,
        }
    }
}

/// Whether `entry` can be counted: it is for one of the eight categories,
/// neither of its ends lies inside a leap second, and its length can be
/// held.
pub open spec fn countable(entry: TimeLog) -> bool {
    &&& is_side(entry.number)
    &&& entry.start.wf()
    &&& entry.end matches Some(end) ==> end.wf()
    &&& Span::in_range(duration_nanos(entry))
}

/// Whether the totals of `logs` can be worked out entry by entry: each
/// entry can be counted, and on the way no category gets more entries than
/// a `u16` counts or a total that cannot be held.
pub open spec fn summable(logs: Seq<TimeLog>) -> bool {
    &&& forall|i: int| 0 <= i < logs.len() ==> countable(#[trigger] logs[i])
    &&& forall|n: int, number: u8|
        0 <= n <= logs.len() && is_side(number) ==> #[trigger] count_for(
            logs.subrange(0, n),
            number,
        ) <= u16::MAX
    &&& forall|n: int, number: u8|
        0 <= n <= logs.len() && is_side(number) ==> Span::in_range(
            #[trigger] total_for(logs.subrange(0, n), number),
        )
}

/// The running count and total of one category.
#[derive(Clone, Copy, Debug)]
struct TimeStatsBuilder {
    number: u8,
    count: u16,
    total: Span,
}

impl TimeStatsBuilder {
    fn new(number: u8) -> (builder: TimeStatsBuilder)
        ensures
            builder.number == number,
            builder.count == 0,
            builder.total == (Span { secs: 0, nanos: 0 }),
    {
        TimeStatsBuilder { number, count: 0, total: Span::zero() }
    }

    /// Counts `entry` in.
    fn add(&mut self, entry: TimeLog)
        requires
            countable(entry),
            old(self).count < u16::MAX,
            old(self).total.fits(),
            Span::in_range(old(self).total.as_nanos() + duration_nanos(entry)),
        ensures
            final(self).number == old(self).number,
            final(self).count == old(self).count + 1,
            final(self).total.fits(),
            final(self).total.as_nanos() == old(self).total.as_nanos() + duration_nanos(entry),
    {
        self.count = self.count + 1;
        let lasted: Span = match entry.end {
            Some(end) => end.since(&entry.start),
            None => Span::zero(),
        };
        self.total = self.total.plus(lasted);
    }

    fn build(&self) -> (stats: TimeStats)
        requires
            self.total.fits(),
        ensures
            stats.task_number == self.number,
            stats.count == self.count,
            stats.total == self.total,
            stats.mean == mean_of(self.total, self.count),
    {
        TimeStats {
            task_number: self.number,
            count: self.count,
            total: self.total,
            mean: if self.count == 0 {
                Span::zero()
            } else {
                span_divided(self.total, self.count as i32)
            },
        }
    }
}

/// What `compute_stats` gives for category `number` of `logs`.
pub open spec fn stats_for(logs: Seq<TimeLog>, number: u8, stats: TimeStats) -> bool {
    &&& stats.task_number == number
    &&& stats.count == count_for(logs, number)
    &&& stats.total.fits()
    &&& stats.total.as_nanos() == total_for(logs, number)
    &&& stats.mean == mean_of(stats.total, stats.count)
}

/// The totals of `logs` for each of the eight categories, in their order:
/// for each, the number of its entries, the time they lasted in all, with
/// a running entry counting for nothing, and the mean of that.
pub fn compute_stats(logs: &Vec<TimeLog>) -> (stats: [TimeStats; 8])
    requires
        summable(logs@),
    ensures
        forall|k: int| 0 <= k < 8 ==> stats_for(logs@, (k + 1) as u8, #[trigger] stats@[k]),
{
    let mut builders: Vec<TimeStatsBuilder> = Vec::new();
    let mut number: u8 = 1;
    while number <= 8
        invariant
            1 <= number <= 9,
            builders@.len() == number - 1,
            forall|k: int|
                0 <= k < builders@.len() ==> (#[trigger] builders@[k]).number == k + 1
                    && builders@[k].count == 0 && builders@[k].total == (Span {
                    secs: 0,
                    nanos: 0,
                }),
        decreases 9 - number,
    {
        builders.push(TimeStatsBuilder::new(number));
        number = number + 1;
    }
    let mut i: usize = 0;
    assert(logs@.subrange(0, 0).len() == 0);
    while i < logs.len()
        invariant
            i <= logs.len(),
            summable(logs@),
            builders@.len() == 8,
            forall|k: int|
                0 <= k < 8 ==> {
                    &&& (#[trigger] builders@[k]).number == k + 1
                    &&& builders@[k].count == count_for(logs@.subrange(0, i as int), (k + 1) as u8)
                    &&& builders@[k].total.fits()
                    &&& builders@[k].total.as_nanos() == total_for(
                        logs@.subrange(0, i as int),
                        (k + 1) as u8,
                    )
                },
        decreases logs.len() - i,
    {
        let entry: TimeLog = logs[i];
        assert(countable(logs@[i as int]));
        let place: usize = (entry.number - 1) as usize;
        let ghost before = logs@.subrange(0, i as int);
        let ghost after = logs@.subrange(0, i + 1);
        proof {
            assert(after.drop_last() == before);
            assert(after.last() == entry);
            assert(count_for(after, entry.number) <= u16::MAX);
            assert(Span::in_range(total_for(after, entry.number)));
        }
        let mut builder: TimeStatsBuilder = builders[place];
        builder.add(entry);
        builders.set(place, builder);
        i = i + 1;
    }
    assert(logs@.subrange(0, i as int) == logs@);
    [
        builders[0].build(),
        builders[1].build(),
        builders[2].build(),
        builders[3].build(),
        builders[4].build(),
        builders[5].build(),
        builders[6].build(),
        builders[7].build(),
    ]
}

/// Whether `nanos` nanoseconds are a length that can be held.
fn holds(nanos: i128) -> (ok: bool)
    ensures
        ok == Span::in_range(nanos as int),
{
    -9_223_372_036_854_775_807_000_000 <= nanos && nanos <= 9_223_372_036_854_775_807_000_000
}

/// Whether `entry` can be counted, and then how long it lasted.
fn measured(entry: &TimeLog) -> (lasted: Option<i128>)
    ensures
        lasted.is_some() == countable(*entry),
        lasted matches Some(nanos) ==> nanos == duration_nanos(*entry),
{
    if entry.number < 1 || entry.number > 8 || entry.start.nanos >= 1_000_000_000 {
        return None;
    }
    match entry.end {
        Some(end) => {
            if end.nanos >= 1_000_000_000 {
                return None;
            }
            let lasted: i128 = (end.secs as i128 * 1_000_000_000 + end.nanos as i128) - (
            entry.start.secs as i128 * 1_000_000_000 + entry.start.nanos as i128);
            if holds(lasted) {
                Some(lasted)
            } else {
                None
            }
        },
        None => Some(0),
    }
}

/// Whether the totals of `logs` can be worked out.
pub fn can_compute_stats(logs: &Vec<TimeLog>) -> (ok: bool)
    ensures
        ok == summable(logs@),
{
    let mut counts: Vec<u32> = Vec::new();
    let mut totals: Vec<i128> = Vec::new();
    let mut number: u8 = 1;
    while number <= 8
        invariant
            1 <= number <= 9,
            counts@.len() == number - 1,
            totals@.len() == number - 1,
            forall|k: int| 0 <= k < counts@.len() ==> counts@[k] == 0 && totals@[k] == 0,
        decreases 9 - number,
    {
        counts.push(0);
        totals.push(0);
        number = number + 1;
    }
    let mut i: usize = 0;
    assert(logs@.subrange(0, 0).len() == 0);
    while i < logs.len()
        invariant
            i <= logs.len(),
            counts@.len() == 8,
            totals@.len() == 8,
            forall|k: int|
                0 <= k < 8 ==> {
                    &&& (#[trigger] counts@[k]) == count_for(
                        logs@.subrange(0, i as int),
                        (k + 1) as u8,
                    )
                    &&& counts@[k] <= u16::MAX
                    &&& totals@[k] == total_for(logs@.subrange(0, i as int), (k + 1) as u8)
                    &&& Span::in_range(totals@[k] as int)
                },
            forall|j: int| 0 <= j < i ==> countable(#[trigger] logs@[j]),
            forall|n: int, number: u8|
                0 <= n <= i && is_side(number) ==> #[trigger] count_for(
                    logs@.subrange(0, n),
                    number,
                ) <= u16::MAX,
            forall|n: int, number: u8|
                0 <= n <= i && is_side(number) ==> Span::in_range(
                    #[trigger] total_for(logs@.subrange(0, n), number),
                ),
        decreases logs.len() - i,
    {
        let entry: TimeLog = logs[i];
        let ghost before = logs@.subrange(0, i as int);
        let ghost after = logs@.subrange(0, i + 1);
        proof {
            assert(after.drop_last() == before);
            assert(after.last() == entry);
        }
        match measured(&entry) {
            None => {
                assert(!countable(logs@[i as int]));
                return false;
            },
            Some(lasted) => {
                let place: usize = (entry.number - 1) as usize;
                let count: u32 = counts[place] + 1;
                let total: i128 = totals[place] + lasted;
                assert(count == count_for(after, entry.number));
                assert(total == total_for(after, entry.number));
                if count > 65535 || !holds(total) {
                    assert(!summable(logs@)) by {
                        if summable(logs@) {
                            assert(count_for(logs@.subrange(0, i + 1), entry.number) <= u16::MAX);
                            assert(Span::in_range(
                                total_for(logs@.subrange(0, i + 1), entry.number),
                            ));
                        }
                    }
                    return false;
                }
                let ghost counts_before = counts@;
                let ghost totals_before = totals@;
                counts.set(place, count);
                totals.set(place, total);
                proof {
                    assert forall|k: int| 0 <= k < 8 implies {
                        &&& (#[trigger] counts@[k]) == count_for(after, (k + 1) as u8)
                        &&& counts@[k] <= u16::MAX
                        &&& totals@[k] == total_for(after, (k + 1) as u8)
                        &&& Span::in_range(totals@[k] as int)
                    } by {
                        if k != place {
                            assert(counts@[k] == counts_before[k]);
                            assert(totals@[k] == totals_before[k]);
                            assert(count_for(after, (k + 1) as u8) == count_for(
                                before,
                                (k + 1) as u8,
                            ));
                            assert(total_for(after, (k + 1) as u8) == total_for(
                                before,
                                (k + 1) as u8,
                            ));
                        }
                    }
                    assert forall|n: int, number: u8|
                        0 <= n <= i + 1 && is_side(number) implies #[trigger] count_for(
                        logs@.subrange(0, n),
                        number,
                    ) <= u16::MAX by {
                        if n == i + 1 {
                            assert(counts@[number - 1] == count_for(after, number));
                        }
                    }
                    assert forall|n: int, number: u8|
                        0 <= n <= i + 1 && is_side(number) implies Span::in_range(
                        #[trigger] total_for(logs@.subrange(0, n), number),
                    ) by {
                        if n == i + 1 {
                            assert(counts@[number - 1] == count_for(after, number));
                            assert(totals@[number - 1] == total_for(after, number));
                        }
                    }
                }
            },
        }
        i = i + 1;
    }
    true
}

/// Whether `a` is an earlier day than `b`.
pub open spec fn is_before(a: Date, b: Date) -> bool {
    a.year < b.year || (a.year == b.year && (a.month < b.month || (a.month == b.month && a.day
        < b.day)))
}

/// Whether `a` is an earlier day than `b`.
pub fn date_before(a: Date, b: Date) -> (earlier: bool)
    ensures
        earlier == is_before(a, b),
{
    a.year < b.year || (a.year == b.year && (a.month < b.month || (a.month == b.month && a.day
        < b.day)))
}

/// Whether `date` lies in the range from `min` to `max`, both counted in;
/// a bound that is not given does not bind.
pub open spec fn in_range(date: Date, min: Option<Date>, max: Option<Date>) -> bool {
    &&& min matches Some(first) ==> !is_before(date, first)
    &&& max matches Some(last) ==> !is_before(last, date)
}

/// Whether the file of the day `date` belongs to the history from `min`
/// to `max`.
pub fn date_in_range(date: Date, min: Option<Date>, max: Option<Date>) -> (inside: bool)
    ensures
        inside == in_range(date, min, max),
{
    let too_early: bool = match min {
        Some(first) => date_before(date, first),
        None => false,
    };
    let too_late: bool = match max {
        Some(last) => date_before(last, date),
        None => false,
    };
    !(too_early || too_late)
}

/// The entries of one day, as they were loaded from its file.
#[derive(Debug)]
pub struct HistoryFile {
    pub date: Date,
    pub entries: Vec<TimeLog>,
}

/// The entries of all of `files`, one file after the other.
pub open spec fn all_entries(files: Seq<HistoryFile>) -> Seq<TimeLog>
    decreases files.len(),
{
    if files.len() == 0 {
        Seq::empty()
    } else {
        all_entries(files.drop_last()) + files.last().entries@
    }
}

/// Whether `found` is the earliest of the days of `files`: none for no
/// files, else a day that a file has and that no file's day is before.
pub open spec fn is_earliest(files: Seq<HistoryFile>, found: Option<Date>) -> bool {
    match found {
        Some(day) => {
            &&& exists|i: int| 0 <= i < files.len() && (#[trigger] files[i]).date == day
            &&& forall|i: int| 0 <= i < files.len() ==> !is_before((#[trigger] files[i]).date, day)
        },
        None => files.len() == 0,
    }
}

/// What the history page shows when there is nowhere to load from: eight
/// times no entries for no category, and no day.
pub fn history_unavailable() -> (history: ([TimeStats; 8], Option<Date>))
    ensures
        history.1.is_none(),
        forall|k: int|
            0 <= k < 8 ==> (#[trigger] history.0@[k]) == (TimeStats {
                task_number: 0,
                count: 0,
                total: Span { secs: 0, nanos: 0 },
                mean: Span { secs: 0, nanos: 0 },
            }),
{
    let none: TimeStats = TimeStats::default();
    ([none, none, none, none, none, none, none, none], None)
}

/// The history that `files` make: the totals of all their entries, and
/// the earliest of their days. Nothing where the totals cannot be worked
/// out.
pub fn load_history(files: &Vec<HistoryFile>) -> (history: Option<([TimeStats; 8], Option<Date>)>)
    ensures
        history.is_some() == summable(all_entries(files@)),
        history matches Some((stats, earliest)) ==> is_earliest(files@, earliest) && forall|k: int|
            0 <= k < 8 ==> stats_for(all_entries(files@), (k + 1) as u8, #[trigger] stats@[k]),
{
    let mut logs: Vec<TimeLog> = Vec::new();
    let mut earliest: Option<Date> = None;
    let mut i: usize = 0;
    assert(files@.subrange(0, 0).len() == 0);
    while i < files.len()
        invariant
            i <= files.len(),
            logs@ == all_entries(files@.subrange(0, i as int)),
            is_earliest(files@.subrange(0, i as int), earliest),
        decreases files.len() - i,
    {
        let file: &HistoryFile = &files[i];
        let ghost before = files@.subrange(0, i as int);
        let ghost after = files@.subrange(0, i + 1);
        proof {
            assert(after.drop_last() == before);
            assert(after.last() == files@[i as int]);
        }
        let ghost logs_before = logs@;
        let mut j: usize = 0;
        while j < file.entries.len()
            invariant
                j <= file.entries.len(),
                logs@ == logs_before + file.entries@.subrange(0, j as int),
            decreases file.entries.len() - j,
        {
            logs.push(file.entries[j]);
            assert(logs@ =~= logs_before + file.entries@.subrange(0, j + 1));
            j = j + 1;
        }
        assert(file.entries@.subrange(0, j as int) == file.entries@);
        let ghost earliest_before = earliest;
        earliest = match earliest {
            Some(day) => if date_before(file.date, day) {
                Some(file.date)
            } else {
                Some(day)
            },
            None => Some(file.date),
        };
        proof {
            let day = earliest.unwrap();
            assert(after[i as int] == files@[i as int]);
            if day == file.date {
                assert(after[i as int].date == day);
            } else {
                let at = choose|k: int| 0 <= k < before.len() && (#[trigger] before[k]).date == day;
                assert(after[at].date == day);
            }
            assert forall|k: int| 0 <= k < after.len() implies !is_before(
                (#[trigger] after[k]).date,
                day,
            ) by {
                if k < i {
                    assert(after[k] == before[k]);
                    if earliest_before.is_some() {
                        assert(!is_before(before[k].date, earliest_before.unwrap()));
                    }
                }
            }
        }
        i = i + 1;
    }
    assert(files@.subrange(0, i as int) == files@);
    if can_compute_stats(&logs) {
        Some((compute_stats(&logs), earliest))
    } else {
        None
    }
}

} // verus!
