//! The home page: today's entries, either shown or being edited.

use crate::clock::now;
use crate::clock::Span;
use crate::clock::Timestamp;
use crate::entry::TimeLog;
use crate::text::push_two_digits;
use crate::text::two_digits;
use crate::ui::editable_list::EditableList;
use crate::ui::editable_list::ListView;
use crate::ui::editable_list::TableState;
use vstd::prelude::*;

verus! {

/// What the home page is doing.
#[derive(Debug)]
pub enum State {
    /// Showing today's entries.
    Viewing,
    /// Editing a copy of today's entries: the table, the place of the
    /// cursor inside the row being typed, and whether a deletion waits to
    /// be confirmed.
    Editing { state: EditableList<TableState, TimeLog>, cursor_pos: usize, delete_pending: bool },
}

/// What the home page is doing, as plain values.
pub enum StateView {
    Viewing,
    Editing { table: ListView<TimeLog>, cursor_pos: usize, delete_pending: bool },
}

impl View for State {
    type V = StateView;

    open spec fn view(&self) -> StateView {
        match *self {
            State::Viewing => StateView::Viewing,
            State::Editing { state, cursor_pos, delete_pending } => StateView::Editing {
                table: state@,
                cursor_pos,
                delete_pending,
            },
        }
    }
}

impl Default for State {
    fn default() -> (state: State)
        ensures
            state is Viewing,
    {
        State::Viewing
    }
}

impl State {
    /// The page as it is when editing of `options` begins: nothing
    /// highlighted, cursor on the category, no deletion pending.
    pub fn editable(options: Vec<TimeLog>) -> (state: State)
        ensures
            state matches State::Editing { state: table, cursor_pos, delete_pending }
                && table.options == options
                && !table.editing
                && !table.caps_lock
                && table.list_state == (TableState { offset: 0, selected: None })
                && table.input.end.is_none()
                && table.input.number == 1
                && cursor_pos == 0
                && !delete_pending,
            state@ == (StateView::Editing {
                table: ListView::fresh(
                    options@,
                    TimeLog { start: state->state.input.start, end: None, number: 1 },
                ),
                cursor_pos: 0,
                delete_pending: false,
            }),
    {
        State::Editing { state: EditableList::new(options), cursor_pos: 0, delete_pending: false }
    }
}

/// How long `entry` has lasted, in nanoseconds: up to its end, or up to
/// `now` while it is running.
pub open spec fn lasted_by(entry: TimeLog, now: Timestamp) -> int {
    (match entry.end {
        Some(end) => end.as_nanos(),
        None => now.as_nanos(),
    }) - entry.start.as_nanos()
}

/// How long the entries of `today` have lasted in all, in nanoseconds.
pub open spec fn time_logged(today: Seq<TimeLog>, now: Timestamp) -> int
    decreases today.len(),
{
    if today.len() == 0 {
        0
    } else {
        time_logged(today.drop_last(), now) + lasted_by(today.last(), now)
    }
}

/// A length of `nanos` nanoseconds as a time of day, `HH:MM:SS`: whole
/// seconds, rounded down, counted round the clock from midnight.
pub open spec fn clock_text(nanos: int) -> Seq<char> {
    let second_of_day = (nanos / 1_000_000_000) % 86_400;
    two_digits(second_of_day / 3600) + seq![':'] + two_digits((second_of_day % 3600) / 60)
        + seq![':'] + two_digits(second_of_day % 60)
}

/// Whether the entries of `today` can be added up one after the other: no
/// end of an entry lies inside a leap second, and every length and every
/// sum on the way can be held.
pub open spec fn totalable(today: Seq<TimeLog>, now: Timestamp) -> bool {
    &&& now.wf()
    &&& forall|i: int|
        0 <= i < today.len() ==> {
            &&& (#[trigger] today[i]).start.wf()
            &&& today[i].end matches Some(end) ==> end.wf()
            &&& Span::in_range(lasted_by(today[i], now))
        }
    &&& forall|n: int|
        0 <= n <= today.len() ==> Span::in_range(#[trigger] time_logged(today.subrange(0, n), now))
}

/// The time logged by `today` as of `now`, as `HH:MM:SS`.
pub fn format_total_time_at(today: &Vec<TimeLog>, now: Timestamp) -> (text: String)
    requires
        totalable(today@, now),
    ensures
        text@ == clock_text(time_logged(today@, now)),
{
    let mut total: Span = Span::zero();
    let mut i: usize = 0;
    assert(today@.subrange(0, 0).len() == 0);
    while i < today.len()
        invariant
            i <= today.len(),
            totalable(today@, now),
            total.fits(),
            total.as_nanos() == time_logged(today@.subrange(0, i as int), now),
        decreases today.len() - i,
    {
        let entry: TimeLog = today[i];
        proof {
            let upto = today@.subrange(0, i + 1);
            assert(upto.drop_last() == today@.subrange(0, i as int));
            assert(upto.last() == entry);
            assert(Span::in_range(time_logged(upto, now)));
        }
        let end: Timestamp = match entry.end {
            Some(end) => end,
            None => now,
        };
        total = total.plus(end.since(&entry.start));
        i = i + 1;
    }
    assert(today@.subrange(0, i as int) == today@);
    let whole: i64 = if total.nanos < 0 {
        total.secs - 1
    } else {
        total.secs
    };
    assert(whole == total.as_nanos() / 1_000_000_000);
    let second_of_day: u32 = ((whole + 86_400_000_000_000_000) as u64 % 86_400) as u32;
    assert(second_of_day == whole % 86_400);
    let mut text: String = String::new();
    push_two_digits(&mut text, second_of_day / 3600);
    text.append(":");
    push_two_digits(&mut text, (second_of_day % 3600) / 60);
    text.append(":");
    push_two_digits(&mut text, second_of_day % 60);
    proof {
        reveal_strlit(":");
        assert(":"@ =~= seq![':']);
        assert(text@ =~= clock_text(time_logged(today@, now)));
    }
    text
}

/// The time logged by `today` as of the moment of the call, as
/// `HH:MM:SS`. Entries that are over count with their own length, whatever
/// the clock says.
pub fn format_total_time(today: &Vec<TimeLog>) -> (text: Option<String>)
    ensures
        text matches Some(shown) ==> exists|now: Timestamp|
            totalable(today@, now) && shown@ == clock_text(time_logged(today@, now)),
        text is None ==> exists|now: Timestamp| now.wf() && !totalable(today@, now),
{
    let at: Timestamp = now();
    if can_total(today, at) {
        Some(format_total_time_at(today, at))
    } else {
        None
    }
}

/// Whether `nanos`, the difference of two instants or the sum of two
/// lengths, is a length that can be held.
fn holds(nanos: i128) -> (ok: bool)
    ensures
        ok == Span::in_range(nanos as int),
{
    -9_223_372_036_854_775_807_000_000 <= nanos && nanos <= 9_223_372_036_854_775_807_000_000
}

/// The instant as one number of nanoseconds.
fn nanos_of(at: Timestamp) -> (nanos: i128)
    ensures
        nanos == at.as_nanos(),
{
    at.secs as i128 * 1_000_000_000 + at.nanos as i128
}

/// Whether the entries of `today` can be added up as of `now`.
pub fn can_total(today: &Vec<TimeLog>, now: Timestamp) -> (ok: bool)
    ensures
        ok == totalable(today@, now),
{
    if now.nanos >= 1_000_000_000 {
        return false;
    }
    let mut total: i128 = 0;
    let mut i: usize = 0;
    assert(today@.subrange(0, 0).len() == 0);
    while i < today.len()
        invariant
            i <= today.len(),
            now.wf(),
            total == time_logged(today@.subrange(0, i as int), now),
            Span::in_range(total as int),
            forall|k: int|
                0 <= k < i ==> {
                    &&& (#[trigger] today@[k]).start.wf()
                    &&& today@[k].end matches Some(end) ==> end.wf()
                    &&& Span::in_range(lasted_by(today@[k], now))
                },
            forall|n: int|
                0 <= n <= i ==> Span::in_range(
                    #[trigger] time_logged(today@.subrange(0, n), now),
                ),
        decreases today.len() - i,
    {
        let entry: TimeLog = today[i];
        let end: Timestamp = match entry.end {
            Some(end) => end,
            None => now,
        };
        let ghost upto = today@.subrange(0, i + 1);
        proof {
            assert(upto.drop_last() == today@.subrange(0, i as int));
            assert(upto.last() == entry);
        }
        if entry.start.nanos >= 1_000_000_000 || end.nanos >= 1_000_000_000 {
            assert(!totalable(today@, now)) by {
                if totalable(today@, now) {
                    assert(today@[i as int].start.wf());
                }
            }
            return false;
        }
        let lasted: i128 = nanos_of(end) - nanos_of(entry.start);
        if !holds(lasted) {
            assert(!totalable(today@, now)) by {
                if totalable(today@, now) {
                    assert(Span::in_range(lasted_by(today@[i as int], now)));
                }
            }
            return false;
        }
        let sum: i128 = total + lasted;
        if !holds(sum) {
            assert(!totalable(today@, now)) by {
                if totalable(today@, now) {
                    assert(Span::in_range(time_logged(upto, now)));
                }
            }
            return false;
        }
        total = sum;
        i = i + 1;
    }
    assert forall|n: int| 0 <= n <= today@.len() implies Span::in_range(
        #[trigger] time_logged(today@.subrange(0, n), now),
    ) by {}
    true
}

/// Whether an entry is shown in the row of the day that runs from
/// `table_starts_at` to `table_ends_at`: it has not ended by the start of
/// the day, and it has started before the end of the day.
pub open spec fn is_shown(entry: TimeLog, table_starts_at: Timestamp, table_ends_at: Timestamp) -> bool {
    &&& entry.end matches Some(end) ==> !end.spec_le(table_starts_at)
    &&& !table_ends_at.spec_le(entry.start)
}

/// Whether `entry` is shown in the row of the day that runs from
/// `table_starts_at` to `table_ends_at`.
pub fn shown_today(entry: &TimeLog, table_starts_at: Timestamp, table_ends_at: Timestamp) -> (shown:
    bool)
    ensures
        shown == is_shown(*entry, table_starts_at, table_ends_at),
{
    let ended_before: bool = match entry.end {
        Some(end) => end.le(&table_starts_at),
        None => false,
    };
    !ended_before && !table_ends_at.le(&entry.start)
}

/// An entry on the row of today: the columns from `start_px` up to, but
/// not with, `end_px`.
#[derive(Clone, Copy, Debug, PartialEq, Eq, Structural)]
pub struct Placed {
    pub start_px: u16,
    pub end_px: u16,
    /// Whether the entry is still running.
    pub running: bool,
    pub number: u8,
}

/// A stretch of columns on the row of today: for the entry of a category,
/// or empty.
#[derive(Clone, Copy, Debug, PartialEq, Eq, Structural)]
pub struct RowCell {
    pub width: u16,
    pub number: Option<u8>,
}

/// The row so far: its cells, and the column that the next cell starts at.
pub struct RowSoFar {
    pub cells: Seq<RowCell>,
    pub filled: int,
}

/// The row after `entry` has been laid out behind what is `filled`. A gap
/// is left up to the start of the entry if that lies further on. The
/// entry then gets the columns up to its end if that lies further on
/// still; the last entry, if it is running, gets one column at the least.
pub open spec fn with_entry(row: RowSoFar, entry: Placed, last: bool) -> RowSoFar {
    let gapped = if entry.start_px > row.filled {
        RowSoFar {
            cells: row.cells.push(
                RowCell { width: (entry.start_px - row.filled) as u16, number: None },
            ),
            filled: entry.start_px as int,
        }
    } else {
        row
    };
    if entry.end_px > gapped.filled {
        RowSoFar {
            cells: gapped.cells.push(
                RowCell { width: (entry.end_px - gapped.filled) as u16, number: Some(entry.number) },
            ),
            filled: entry.end_px as int,
        }
    } else if last && entry.running {
        RowSoFar {
            cells: gapped.cells.push(RowCell { width: 1, number: Some(entry.number) }),
            filled: gapped.filled + 1,
        }
    } else {
        gapped
    }
}

/// The row after the first `upto` of `entries` have been laid out from
/// the left.
pub open spec fn laid_out(entries: Seq<Placed>, upto: int) -> RowSoFar
    decreases upto,
{
    if upto <= 0 {
        RowSoFar { cells: Seq::empty(), filled: 0 }
    } else {
        with_entry(laid_out(entries, upto - 1), entries[upto - 1], upto == entries.len())
    }
}

/// Whether `entries` can be laid out: where the last entry is running and
/// its end lies behind what is filled, it lies right there, and there is
/// a column left for it.
pub open spec fn lays_out(entries: Seq<Placed>) -> bool {
    entries.len() > 0 && entries.last().running ==> {
        let before = laid_out(entries, entries.len() - 1);
        let filled = if entries.last().start_px > before.filled {
            entries.last().start_px as int
        } else {
            before.filled
        };
        entries.last().end_px >= filled && filled < u16::MAX
    }
}

/// What is filled of a row never exceeds the columns there are but by the
/// one column of a running last entry, and the widths of the cells add up
/// to it.
pub proof fn lemma_row_is_filled_by_its_cells(entries: Seq<Placed>, upto: int)
    requires
        0 <= upto <= entries.len(),
    ensures
        0 <= laid_out(entries, upto).filled <= u16::MAX + 1,
        upto < entries.len() ==> laid_out(entries, upto).filled <= u16::MAX,
        total_width(laid_out(entries, upto).cells) == laid_out(entries, upto).filled,
    decreases upto,
{
    if upto > 0 {
        lemma_row_is_filled_by_its_cells(entries, upto - 1);
        let before = laid_out(entries, upto - 1);
        let entry = entries[upto - 1];
        let gapped = if entry.start_px > before.filled {
            RowSoFar {
                cells: before.cells.push(
                    RowCell { width: (entry.start_px - before.filled) as u16, number: None },
                ),
                filled: entry.start_px as int,
            }
        } else {
            before
        };
        assert(total_width(gapped.cells) == gapped.filled) by {
            if entry.start_px > before.filled {
                assert(gapped.cells.drop_last() == before.cells);
            }
        }
        let after = laid_out(entries, upto);
        if after.cells.len() > gapped.cells.len() {
            assert(after.cells.drop_last() == gapped.cells);
        }
    }
}

/// The widths of `cells` together.
pub open spec fn total_width(cells: Seq<RowCell>) -> int
    decreases cells.len(),
{
    if cells.len() == 0 {
        0
    } else {
        total_width(cells.drop_last()) + cells.last().width
    }
}

/// Whether `entries` can be laid out.
pub fn can_lay_out(entries: &Vec<Placed>) -> (ok: bool)
    ensures
        ok == lays_out(entries@),
{
    let n: usize = entries.len();
    if n == 0 || !entries[n - 1].running {
        return true;
    }
    let mut filled: u16 = 0;
    let mut i: usize = 0;
    while i < n - 1
        invariant
            0 < n == entries@.len(),
            i <= n - 1,
            filled == laid_out(entries@, i as int).filled,
        decreases n - 1 - i,
    {
        proof {
            lemma_row_is_filled_by_its_cells(entries@, i + 1);
        }
        let entry: Placed = entries[i];
        if entry.start_px > filled {
            filled = entry.start_px;
        }
        if entry.end_px > filled {
            filled = entry.end_px;
        }
        i = i + 1;
    }
    let last: Placed = entries[n - 1];
    if last.start_px > filled {
        filled = last.start_px;
    }
    last.end_px >= filled && filled < u16::MAX
}

/// The cells of the row of today for `entries`, which are taken to be in
/// the order of their starts: each entry from its start, or from where the
/// one before it ends, up to its own end, with gaps where nothing was
/// logged.
pub fn today_row_cells(entries: &Vec<Placed>) -> (cells: Vec<RowCell>)
    requires
        lays_out(entries@),
    ensures
        cells@ == laid_out(entries@, entries@.len() as int).cells,
{
    let n: usize = entries.len();
    let mut cells: Vec<RowCell> = Vec::new();
    let mut filled: u16 = 0;
    let mut i: usize = 0;
    while i < n
        invariant
            n == entries@.len(),
            i <= n,
            lays_out(entries@),
            cells@ == laid_out(entries@, i as int).cells,
            i < n ==> filled == laid_out(entries@, i as int).filled,
        decreases n - i,
    {
        proof {
            lemma_row_is_filled_by_its_cells(entries@, i + 1);
            lemma_row_is_filled_by_its_cells(entries@, i as int);
        }
        let entry: Placed = entries[i];
        if entry.start_px > filled {
            cells.push(RowCell { width: entry.start_px - filled, number: None });
            filled = entry.start_px;
        }
        let always_show: bool = i == n - 1 && entry.running;
        if entry.end_px > filled {
            cells.push(RowCell { width: entry.end_px - filled, number: Some(entry.number) });
            filled = entry.end_px;
        } else if always_show {
            cells.push(RowCell { width: 1, number: Some(entry.number) });
        }
        i = i + 1;
    }
    cells
}

} // verus!
