//! What the program does in answer to a key.
//!
//! A key changes the shared state and may leave something for the caller to
//! do that takes a file: saving, loading, or leaving the program.

use crate::app::App;
use crate::app::AppView;
use crate::app::Message;
use crate::app::MessageView;
use crate::app::PreferencesView;
use crate::clock::local_date;
use crate::clock::next_local_day;
use crate::clock::now;
use crate::clock::today;
use crate::clock::Date;
use crate::clock::Timestamp;
use crate::entry::TimeLog;
use crate::ui::editable_list::texts;
use crate::ui::editable_list::EditableList;
use crate::ui::editable_list::ListView;
use crate::ui::editable_list::TuiState;
use crate::ui::home::State;
use crate::ui::home::StateView;
use crate::ui::stats::DateRangeOption;
use crate::ui::Page;
use crate::ui::PageView;
use crate::utils::adjust_datetime_digit;
use crate::utils::datetime_with_zeroed_time;
use crate::utils::decimal_digit;
use crate::utils::digit_value;
use vstd::prelude::*;

verus! {

/// A key of the keyboard, as far as the program tells keys apart.
#[derive(Clone, Copy, Debug, PartialEq, Eq, Structural)]
pub enum Key {
    Esc,
    Enter,
    Char(char),
    Left,
    Right,
    Up,
    Down,
    Tab,
    BackTab,
    Backspace,
    CapsLock,
    /// Any other key.
    Other,
}

/// What is left for the caller to do after a key.
#[derive(Clone, Copy, Debug, PartialEq, Eq, Structural)]
pub enum KeyEffect {
    Nothing,
    /// Leave the loop that reads keys.
    Quit,
    /// Write today's entries to their file.
    SaveLog,
    /// Write the preferences to their file.
    SavePrefs,
    /// Load the history for this range and show it.
    LoadStats(DateRangeOption),
}

/// The state after a key, and what is left to do.
pub struct KeyStep {
    pub app: AppView,
    pub effect: KeyEffect,
}

/// The last place that the cursor can take in an entry that is being
/// typed: the category is place 0, the six digits of the start are 1 to 6,
/// and the six digits of the end are 7 to 12.
pub const LAST_CURSOR_POS: usize = 12;

/// The text shown when an entry that is not the last is asked to go on.
pub open spec fn only_final_text() -> Seq<char> {
    "Only the final entry can be ongoing"@
}

/// The scratch entry that a table gets when its own is used up: for the
/// first category, running, and started at `fresh`.
pub open spec fn fresh_entry(fresh: Timestamp) -> TimeLog {
    TimeLog { start: fresh, end: None, number: 1 }
}

/// Whether the cursor can move on to the next place: up to the end of the
/// start while the entry is running, up to the end of the end otherwise.
pub open spec fn can_advance(cursor: usize, input: TimeLog) -> bool {
    (cursor < 12 && input.end.is_some()) || cursor < 7
}

/// The cursor moved on, if it can.
pub open spec fn advanced(cursor: usize, input: TimeLog) -> usize {
    if can_advance(cursor, input) {
        (cursor + 1) as usize
    } else {
        cursor
    }
}

/// The entry that is put in next to `prev`, or first in an empty table as
/// of `now`: one second long, ending where `prev` starts, for the same
/// category.
pub open spec fn entry_before(prev: Option<TimeLog>, now: Timestamp) -> TimeLog {
    let anchor = match prev {
        Some(entry) => entry.start,
        None => now,
    };
    TimeLog {
        start: Timestamp { secs: (anchor.secs - 1) as i64, nanos: anchor.nanos },
        end: Some(anchor),
        number: match prev {
            Some(entry) => entry.number,
            None => 1,
        },
    }
}

/// `c` as a capital letter, if it is one of the small letters a to z.
pub open spec fn upper(c: char) -> char {
    if 'a' <= c <= 'z' {
        ((c as u8) - 32) as char
    } else {
        c
    }
}

/// The instant and the place that a digit typed at `cursor` changes: the
/// start of `input` for the places 1 to 6, and its end, or `now` while it
/// has none, for the places 7 to 12.
pub open spec fn digit_target(input: TimeLog, cursor: usize, now: Timestamp) -> Option<
    (Timestamp, usize),
> {
    if 1 <= cursor <= 6 {
        Some((input.start, cursor))
    } else if 7 <= cursor <= 12 {
        Some(
            (
                match input.end {
                    Some(end) => end,
                    None => now,
                },
                (cursor - 6) as usize,
            ),
        )
    } else {
        None
    }
}

impl AppView {
    /// The state with `page` on show.
    pub open spec fn with_page(self, page: PageView) -> AppView {
        AppView { selected_page: page, ..self }
    }

    /// The state with the home page editing `table`.
    pub open spec fn with_table(
        self,
        table: ListView<TimeLog>,
        cursor_pos: usize,
        delete_pending: bool,
    ) -> AppView {
        self.with_page(
            PageView::Home(StateView::Editing { table, cursor_pos, delete_pending }),
        )
    }

    /// The state, with nothing left to do.
    pub open spec fn settled(self) -> KeyStep {
        KeyStep { app: self, effect: KeyEffect::Nothing }
    }

    /// The row of today's last entry, or 0 if there is none.
    pub open spec fn last_log_idx(self) -> usize {
        if self.today.len() == 0 {
            0
        } else {
            (self.today.len() - 1) as usize
        }
    }

    /// The answer to `key` while today's entries are on show.
    ///
    /// `q` leaves the program. The keys 1 to 8 start an entry for that
    /// category, 0 and Esc end the running entry. `e` opens today's
    /// entries for editing, `h` asks for the history of today, and `s`
    /// opens the labels, all empty if there were none.
    pub open spec fn home_key(self, key: Key, now: Timestamp, fresh: Timestamp) -> KeyStep {
        match key {
            Key::Char('q') => KeyStep { app: self, effect: KeyEffect::Quit },
            Key::Char('0') => self.close_entry_if_open(now).settled(),
            Key::Esc => self.close_entry_if_open(now).settled(),
            Key::Char('e') => self.with_table(
                ListView::fresh(self.today, fresh_entry(fresh)),
                0,
                false,
            ).settled(),
            Key::Char('h') => KeyStep {
                app: self,
                effect: KeyEffect::LoadStats(DateRangeOption::Today),
            },
            Key::Char('s') => {
                let labels = match self.preferences.labels {
                    Some(labels) => labels,
                    None => Seq::new(8, |i: int| Seq::<char>::empty()),
                };
                AppView {
                    preferences: PreferencesView { labels: Some(labels), ..self.preferences },
                    selected_page: PageView::Settings(
                        ListView::fresh(labels, Seq::<char>::empty()),
                    ),
                    ..self
                }.settled()
            },
            Key::Char(c) => match digit_value(c) {
                Some(digit) => if 1 <= digit <= 8 {
                    self.start_entry(digit as u8, now).settled()
                } else {
                    self.settled()
                },
                None => self.settled(),
            },
            _ => self.settled(),
        }
    }

    /// The answer to `key` while a row of the table is picked.
    ///
    /// Up and Down, or `k` and `j`, move the highlight and take back a
    /// pending deletion. Enter starts typing over the highlighted row, or
    /// over the last if none is highlighted. `i` puts in an entry before
    /// the highlighted row and starts typing over it. `d` asks for a
    /// deletion and `x` carries it out; Esc or `q` take it back, and leave
    /// editing if none was asked for. What changes today's entries is to
    /// be saved.
    pub open spec fn pick_entry_key(
        self,
        table: ListView<TimeLog>,
        cursor_pos: usize,
        delete_pending: bool,
        key: Key,
        now: Timestamp,
        fresh: Timestamp,
    ) -> KeyStep {
        if key == Key::Esc || key == Key::Char('q') {
            if delete_pending {
                self.with_table(table, cursor_pos, false).settled()
            } else {
                self.with_page(PageView::Home(StateView::Viewing)).settled()
            }
        } else if key == Key::Up || key == Key::Char('k') {
            self.with_table(table.select_prev(), cursor_pos, false).settled()
        } else if key == Key::Down || key == Key::Char('j') {
            self.with_table(table.select_next(), cursor_pos, false).settled()
        } else if key == Key::Enter {
            if delete_pending {
                self.settled()
            } else {
                self.with_table(
                    table.start_editing(Some(self.last_log_idx())),
                    cursor_pos,
                    delete_pending,
                ).settled()
            }
        } else if key == Key::Char('i') {
            if delete_pending {
                self.settled()
            } else {
                let prev = match table.selected {
                    Some(i) => Some(table.options[i as int]),
                    None => None,
                };
                let made = entry_before(prev, now);
                let row = table.cursor_or_first();
                KeyStep {
                    app: AppView {
                        today: self.today.insert(row, made),
                        ..self.with_table(
                            table.insert_at_selection(made).start_editing(Some(row as usize)),
                            cursor_pos,
                            delete_pending,
                        )
                    },
                    effect: KeyEffect::SaveLog,
                }
            }
        } else if key == Key::Char('d') {
            self.with_table(table, cursor_pos, true).settled()
        } else if key == Key::Char('x') {
            if delete_pending {
                match table.selected {
                    Some(row) => KeyStep {
                        app: AppView {
                            today: self.today.remove(row as int),
                            ..self.with_table(
                                table.delete_selected(fresh_entry(fresh)),
                                cursor_pos,
                                false,
                            )
                        },
                        effect: KeyEffect::SaveLog,
                    },
                    None => self.with_table(table, cursor_pos, false).settled(),
                }
            } else {
                self.settled()
            }
        } else {
            self.settled()
        }
    }

    /// The answer to the digit `digit`, typed as `c`, while an entry is
    /// being typed; `adjusted` is what came of changing the instant under
    /// the cursor.
    ///
    /// At place 0 the digit becomes the category. At the places of the
    /// start it changes the start, if the change came to something. At the
    /// places of the end it changes the end likewise; an entry that was
    /// running has ended as of `now` by then, whatever came of the change.
    /// After a change the cursor moves on, if it can.
    pub open spec fn typed_digit(
        input: TimeLog,
        cursor_pos: usize,
        digit: u32,
        now: Timestamp,
        adjusted: Option<Timestamp>,
    ) -> (TimeLog, usize) {
        if cursor_pos == 0 {
            let changed = TimeLog { number: digit as u8, ..input };
            (changed, advanced(cursor_pos, changed))
        } else if cursor_pos <= 6 {
            match adjusted {
                Some(start) => {
                    let changed = TimeLog { start, ..input };
                    (changed, advanced(cursor_pos, changed))
                },
                None => (input, cursor_pos),
            }
        } else {
            match adjusted {
                Some(end) => {
                    let changed = TimeLog { end: Some(end), ..input };
                    (changed, advanced(cursor_pos, changed))
                },
                None => (
                    TimeLog {
                        end: Some(
                            match input.end {
                                Some(end) => end,
                                None => now,
                            },
                        ),
                        ..input
                    },
                    cursor_pos,
                ),
            }
        }
    }

    /// The answer to `key` while an entry of the table is being typed.
    ///
    /// Esc drops what was typed. Enter writes it over the row and over the
    /// same entry of today, which is to be saved. A digit changes what is
    /// under the cursor. Right and Space move the cursor on, Left moves it
    /// back. Space on the first place of the end of a running entry ends
    /// it as of `now`. Backspace makes the last entry run on; on any other
    /// entry it moves the cursor back, and at place 0 it says that only the
    /// last entry can run on.
    pub open spec fn edit_entry_key(
        self,
        table: ListView<TimeLog>,
        cursor_pos: usize,
        delete_pending: bool,
        key: Key,
        now: Timestamp,
        adjusted: Option<Timestamp>,
        fresh: Timestamp,
    ) -> KeyStep {
        let input = table.input;
        match key {
            Key::Esc => self.with_table(
                ListView { editing: false, input: fresh_entry(fresh), ..table },
                0,
                delete_pending,
            ).settled(),
            Key::Enter => KeyStep {
                app: AppView {
                    today: self.today.update(table.selected.unwrap() as int, input),
                    ..self.with_table(table.save_edit(fresh_entry(fresh)), 0, delete_pending)
                },
                effect: KeyEffect::SaveLog,
            },
            Key::Right => self.with_table(
                table,
                advanced(cursor_pos, input),
                delete_pending,
            ).settled(),
            Key::Left => self.with_table(
                table,
                if cursor_pos > 0 {
                    (cursor_pos - 1) as usize
                } else {
                    cursor_pos
                },
                delete_pending,
            ).settled(),
            Key::Backspace => if table.selected_is_last() {
                self.with_table(
                    ListView { input: TimeLog { end: None, ..input }, ..table },
                    cursor_pos,
                    delete_pending,
                ).settled()
            } else if cursor_pos > 0 {
                self.with_table(table, (cursor_pos - 1) as usize, delete_pending).settled()
            } else {
                AppView {
                    message: Some(MessageView { text: only_final_text(), at: now }),
                    ..self
                }.settled()
            },
            Key::Char(c) => match digit_value(c) {
                Some(digit) => {
                    let typed = Self::typed_digit(input, cursor_pos, digit, now, adjusted);
                    self.with_table(
                        ListView { input: typed.0, ..table },
                        typed.1,
                        delete_pending,
                    ).settled()
                },
                None => if c == ' ' {
                    if can_advance(cursor_pos, input) {
                        self.with_table(table, (cursor_pos + 1) as usize, delete_pending).settled()
                    } else if cursor_pos == 7 && input.end.is_none() {
                        self.with_table(
                            ListView { input: TimeLog { end: Some(now), ..input }, ..table },
                            8,
                            delete_pending,
                        ).settled()
                    } else {
                        self.settled()
                    }
                } else {
                    self.settled()
                },
            },
            _ => self.settled(),
        }
    }

    /// The answer to `key` while the history is on show: Esc or `q` go
    /// back to today; the keys that point on or back ask for the history
    /// of the range after or before the one on show, `range`, and for
    /// nothing while no history is on show.
    pub open spec fn stats_key(self, range: Option<DateRangeOption>, key: Key) -> KeyStep {
        if key == Key::Esc || key == Key::Char('q') {
            self.with_page(PageView::Home(StateView::Viewing)).settled()
        } else if key == Key::Right || key == Key::Down || key == Key::Tab || key == Key::Char('l')
            || key == Key::Char('j') {
            match range {
                Some(range) => KeyStep {
                    app: self,
                    effect: KeyEffect::LoadStats(DateRangeOption::at(range.place() + 1)),
                },
                None => self.settled(),
            }
        } else if key == Key::Left || key == Key::Up || key == Key::BackTab || key == Key::Char(
            'h',
        ) || key == Key::Char('k') {
            match range {
                Some(range) => KeyStep {
                    app: self,
                    effect: KeyEffect::LoadStats(DateRangeOption::at(range.place() + 9)),
                },
                None => self.settled(),
            }
        } else {
            self.settled()
        }
    }

    /// The answer to `key` while a label is picked: Esc or `q` go back to
    /// today, Up and Down, or `k` and `j`, move the highlight, and Enter
    /// starts typing over the highlighted label, or over the label of the
    /// running entry if none is highlighted, or over the first.
    pub open spec fn pick_label_key(self, list: ListView<Seq<char>>, key: Key) -> KeyStep {
        if key == Key::Esc || key == Key::Char('q') {
            self.with_page(PageView::Home(StateView::Viewing)).settled()
        } else if key == Key::Up || key == Key::Char('k') {
            self.with_page(PageView::Settings(list.select_prev())).settled()
        } else if key == Key::Down || key == Key::Char('j') {
            self.with_page(PageView::Settings(list.select_next())).settled()
        } else if key == Key::Enter {
            self.with_page(
                PageView::Settings(
                    list.start_editing(
                        match self.open_entry_number() {
                            Some(number) => Some((number - 1) as usize),
                            None => None,
                        },
                    ),
                ),
            ).settled()
        } else {
            self.settled()
        }
    }

    /// The answer to `key` while a label is being typed: Esc drops what
    /// was typed, Enter writes it over the label, which is to be saved,
    /// a character is added at the end, as a capital while caps lock is
    /// on, Backspace takes the last character off, and Caps Lock turns
    /// caps lock on or off.
    pub open spec fn edit_label_key(self, list: ListView<Seq<char>>, key: Key) -> KeyStep {
        match key {
            Key::Esc => self.with_page(
                PageView::Settings(ListView { editing: false, input: Seq::empty(), ..list }),
            ).settled(),
            Key::Enter => {
                let labels = match self.preferences.labels {
                    Some(labels) => labels,
                    None => Seq::new(8, |i: int| Seq::<char>::empty()),
                };
                KeyStep {
                    app: AppView {
                        preferences: PreferencesView {
                            labels: Some(labels.update(list.selected.unwrap() as int, list.input)),
                            ..self.preferences
                        },
                        selected_page: PageView::Settings(list.save_edit(Seq::empty())),
                        ..self
                    },
                    effect: KeyEffect::SavePrefs,
                }
            },
            Key::Char(c) => self.with_page(
                PageView::Settings(
                    ListView {
                        input: list.input.push(
                            if list.caps_lock {
                                upper(c)
                            } else {
                                c
                            },
                        ),
                        ..list
                    },
                ),
            ).settled(),
            Key::Backspace => self.with_page(
                PageView::Settings(
                    ListView {
                        input: if list.input.len() > 0 {
                            list.input.drop_last()
                        } else {
                            list.input
                        },
                        ..list
                    },
                ),
            ).settled(),
            Key::CapsLock => self.with_page(
                PageView::Settings(ListView { caps_lock: !list.caps_lock, ..list }),
            ).settled(),
            _ => self.settled(),
        }
    }

    /// The state after `key` was pressed at `now`, and what is left to do.
    ///
    /// `adjusted` is what came of changing the instant under the cursor,
    /// where the key is a digit typed into a time; `fresh` is the start of
    /// the scratch entry, where the table gets a new one.
    pub open spec fn after_key(
        self,
        key: Key,
        now: Timestamp,
        adjusted: Option<Timestamp>,
        fresh: Timestamp,
    ) -> KeyStep {
        match self.selected_page {
            PageView::Home(StateView::Viewing) => self.home_key(key, now, fresh),
            PageView::Home(StateView::Editing { table, cursor_pos, delete_pending }) => if table.editing {
                self.edit_entry_key(table, cursor_pos, delete_pending, key, now, adjusted, fresh)
            } else {
                self.pick_entry_key(table, cursor_pos, delete_pending, key, now, fresh)
            },
            PageView::Stats(state) => self.stats_key(
                match state {
                    Some(state) => Some(state.date_range),
                    None => None,
                },
                key,
            ),
            PageView::Settings(list) => if list.editing {
                self.edit_label_key(list, key)
            } else {
                self.pick_label_key(list, key)
            },
        }
    }

    /// Whether `key`, pressed at `now`, can be answered: the row that it
    /// works on exists, in the list and where it matters in today's
    /// entries or among the labels, and the cursor is inside the entry.
    pub open spec fn accepts(self, key: Key, now: Timestamp) -> bool {
        match self.selected_page {
            PageView::Home(StateView::Viewing) => true,
            PageView::Home(StateView::Editing { table, cursor_pos, delete_pending }) => if table.editing {
                match key {
                    Key::Enter => table.has_selected_row() && table.selected.unwrap()
                        < self.today.len(),
                    Key::Backspace => table.selected.is_some() ==> table.options.len() > 0,
                    Key::Char(c) => digit_value(c).is_some() ==> cursor_pos <= LAST_CURSOR_POS,
                    _ => true,
                }
            } else if key == Key::Up || key == Key::Char('k') {
                table.can_select_prev()
            } else if key == Key::Down || key == Key::Char('j') {
                table.can_select_next()
            } else if key == Key::Enter {
                !delete_pending ==> table.row_to_edit(Some(self.last_log_idx()))
                    < table.options.len()
            } else if key == Key::Char('i') {
                !delete_pending ==> {
                    &&& table.selected matches Some(i) ==> i < table.options.len()
                    &&& table.cursor_or_first() <= self.today.len()
                    &&& (match table.selected {
                        Some(i) => table.options[i as int].start,
                        None => now,
                    }).secs > i64::MIN
                }
            } else if key == Key::Char('x') {
                delete_pending ==> (table.selected matches Some(i) ==> i < table.options.len() && i
                    < self.today.len())
            } else {
                true
            },
            PageView::Stats(_) => true,
            PageView::Settings(list) => if list.editing {
                key == Key::Enter ==> list.has_selected_row() && list.selected.unwrap() < 8
            } else if key == Key::Up || key == Key::Char('k') {
                list.can_select_prev()
            } else if key == Key::Down || key == Key::Char('j') {
                list.can_select_next()
            } else if key == Key::Enter {
                &&& self.open_entry_number() matches Some(number) ==> number >= 1
                &&& list.row_to_edit(
                    match self.open_entry_number() {
                        Some(number) => Some((number - 1) as usize),
                        None => None,
                    },
                ) < list.options.len()
            } else {
                true
            },
        }
    }
}

/// `String::push`: adds `c` at the end of `text`.
#[verifier::external_body]
fn push_char(text: &mut String, c: char)
    ensures
        final(text)@ == old(text)@.push(c),
{
    text.push(c)
}

/// `String::pop`: takes the last character off `text` and gives it back;
/// an empty text stays as it is and gives nothing.
#[verifier::external_body]
fn pop_char(text: &mut String) -> (last: Option<char>)
    ensures
        match last {
            Some(c) => old(text)@.len() > 0 && c == old(text)@.last() && final(text)@ == old(
                text,
            )@.drop_last(),
            None => old(text)@.len() == 0 && final(text)@ == old(text)@,
        },
{
    text.pop()
}

/// `c` as a capital letter, if it is one of the small letters a to z.
pub fn to_upper(c: char) -> (capital: char)
    ensures
        capital == upper(c),
{
    if 'a' <= c && c <= 'z' {
        ((c as u8) - 32) as char
    } else {
        c
    }
}

/// Eight empty labels.
fn empty_labels() -> (labels: [String; 8])
    ensures
        texts(labels@) == Seq::new(8, |i: int| Seq::<char>::empty()),
{
    let labels: [String; 8] = [
        String::new(),
        String::new(),
        String::new(),
        String::new(),
        String::new(),
        String::new(),
        String::new(),
        String::new(),
    ];
    assert(texts(labels@) =~= Seq::new(8, |i: int| Seq::<char>::empty()));
    labels
}

/// The labels as a list.
fn labels_to_vec(labels: &[String; 8]) -> (list: Vec<String>)
    ensures
        list@ == labels@,
{
    let mut list: Vec<String> = Vec::new();
    let mut i: usize = 0;
    while i < 8
        invariant
            i <= 8,
            list@.len() == i,
            forall|k: int| 0 <= k < i ==> list@[k] == labels@[k],
        decreases 8 - i,
    {
        list.push(labels[i].clone());
        i = i + 1;
    }
    assert(list@ =~= labels@);
    list
}

/// Today's entries once more.
fn copy_entries(entries: &Vec<TimeLog>) -> (copy: Vec<TimeLog>)
    ensures
        copy@ == entries@,
{
    let mut copy: Vec<TimeLog> = Vec::new();
    let mut i: usize = 0;
    while i < entries.len()
        invariant
            i <= entries.len(),
            copy@.len() == i,
            forall|k: int| 0 <= k < i ==> copy@[k] == entries@[k],
        decreases entries.len() - i,
    {
        copy.push(entries[i]);
        i = i + 1;
    }
    assert(copy@ =~= entries@);
    copy
}

impl AppView {
    /// The start of the scratch entry of the table, while today's entries
    /// are being edited.
    pub open spec fn scratch_start(self) -> Timestamp {
        match self.selected_page {
            PageView::Home(StateView::Editing { table, .. }) => table.input.start,
            _ => Timestamp { secs: 0, nanos: 0 },
        }
    }
}

impl App {
    /// Answers `key` while today's entries are on show.
    fn home_key(&mut self, key: Key, now: Timestamp) -> (effect: KeyEffect)
        requires
            old(self)@.selected_page == PageView::Home(StateView::Viewing),
        ensures
            final(self)@ == old(self)@.home_key(key, now, final(self)@.scratch_start()).app,
            effect == old(self)@.home_key(key, now, final(self)@.scratch_start()).effect,
    {
        match key {
            Key::Char('q') => KeyEffect::Quit,
            Key::Char('0') | Key::Esc => {
                self.close_entry_if_open(now);
                KeyEffect::Nothing
            },
            Key::Char('e') => {
                let entries: Vec<TimeLog> = copy_entries(&self.today);
                self.selected_page = Page::Home(State::editable(entries));
                KeyEffect::Nothing
            },
            Key::Char('h') => KeyEffect::LoadStats(DateRangeOption::Today),
            Key::Char('s') => {
                let labels: [String; 8] = match self.preferences.labels.take() {
                    Some(labels) => labels,
                    None => empty_labels(),
                };
                let list: EditableList<crate::ui::editable_list::ListState, String> =
                    EditableList::new(labels_to_vec(&labels));
                self.preferences.labels = Some(labels);
                self.selected_page = Page::Settings(list);
                KeyEffect::Nothing
            },
            Key::Char(c) => {
                match decimal_digit(c) {
                    Some(digit) => {
                        if 1 <= digit && digit <= 8 {
                            self.start_entry_at(digit as u8, now);
                        }
                    },
                    None => {},
                }
                KeyEffect::Nothing
            },
            _ => KeyEffect::Nothing,
        }
    }

    /// Answers `key` while the history is on show.
    fn stats_key(&mut self, key: Key) -> (effect: KeyEffect)
        requires
            old(self)@.selected_page is Stats,
        ensures
            final(self)@ == old(self)@.after_key(
                key,
                Timestamp { secs: 0, nanos: 0 },
                None,
                Timestamp { secs: 0, nanos: 0 },
            ).app,
            effect == old(self)@.after_key(
                key,
                Timestamp { secs: 0, nanos: 0 },
                None,
                Timestamp { secs: 0, nanos: 0 },
            ).effect,
    {
        let range: Option<DateRangeOption> = match &self.selected_page {
            Page::Stats(Some(state)) => Some(state.date_range),
            _ => None,
        };
        match key {
            Key::Esc | Key::Char('q') => {
                self.selected_page = Page::Home(State::Viewing);
                KeyEffect::Nothing
            },
            Key::Right | Key::Down | Key::Tab | Key::Char('l') | Key::Char('j') => match range {
                Some(range) => KeyEffect::LoadStats(range.following()),
                None => KeyEffect::Nothing,
            },
            Key::Left | Key::Up | Key::BackTab | Key::Char('h') | Key::Char('k') => match range {
                Some(range) => KeyEffect::LoadStats(range.previous()),
                None => KeyEffect::Nothing,
            },
            _ => KeyEffect::Nothing,
        }
    }
}

impl App {
    /// Answers `key` while a label is picked.
    fn pick_label_key(&mut self, key: Key) -> (effect: KeyEffect)
        requires
            old(self)@.selected_page matches PageView::Settings(list) && !list.editing,
            old(self)@.accepts(key, Timestamp { secs: 0, nanos: 0 }),
        ensures
            final(self)@ == old(self)@.after_key(
                key,
                Timestamp { secs: 0, nanos: 0 },
                None,
                Timestamp { secs: 0, nanos: 0 },
            ).app,
            effect == KeyEffect::Nothing,
            effect == old(self)@.after_key(
                key,
                Timestamp { secs: 0, nanos: 0 },
                None,
                Timestamp { secs: 0, nanos: 0 },
            ).effect,
    {
        let open_num: Option<u8> = self.open_entry_number();
        let mut leave: bool = false;
        match &mut self.selected_page {
            Page::Settings(list) => match key {
                Key::Esc | Key::Char('q') => {
                    leave = true;
                },
                Key::Up | Key::Char('k') => {
                    list.select_prev();
                },
                Key::Down | Key::Char('j') => {
                    proof {
                        assert(list.options.len() == list.options@.len());
                    }
                    list.select_next();
                },
                Key::Enter => {
                    list.start_editing(
                        match open_num {
                            Some(number) => Some((number - 1) as usize),
                            None => None,
                        },
                    );
                },
                _ => {},
            },
            _ => {},
        }
        if leave {
            self.selected_page = Page::Home(State::Viewing);
        }
        KeyEffect::Nothing
    }

    /// Answers `key` while a label is being typed.
    fn edit_label_key(&mut self, key: Key) -> (effect: KeyEffect)
        requires
            old(self)@.selected_page matches PageView::Settings(list) && list.editing,
            old(self)@.accepts(key, Timestamp { secs: 0, nanos: 0 }),
        ensures
            final(self)@ == old(self)@.after_key(
                key,
                Timestamp { secs: 0, nanos: 0 },
                None,
                Timestamp { secs: 0, nanos: 0 },
            ).app,
            effect == old(self)@.after_key(
                key,
                Timestamp { secs: 0, nanos: 0 },
                None,
                Timestamp { secs: 0, nanos: 0 },
            ).effect,
    {
        let mut effect: KeyEffect = KeyEffect::Nothing;
        match &mut self.selected_page {
            Page::Settings(list) => match key {
                Key::Esc => {
                    list.editing = false;
                    list.input = String::new();
                },
                Key::Enter => {
                    let ghost before = list@;
                    let (edited_idx, new_val) = list.save_edit();
                    proof {
                        assert(list@.options =~= before.options.update(
                            edited_idx as int,
                            before.input,
                        ));
                    }
                    let mut labels: [String; 8] = match self.preferences.labels.take() {
                        Some(labels) => labels,
                        None => empty_labels(),
                    };
                    let ghost labels_before = labels@;
                    labels[edited_idx] = new_val;
                    proof {
                        assert(texts(labels@) =~= texts(labels_before).update(
                            edited_idx as int,
                            before.input,
                        ));
                    }
                    self.preferences.labels = Some(labels);
                    effect = KeyEffect::SavePrefs;
                },
                Key::Char(c) => {
                    let typed: char = if list.caps_lock {
                        to_upper(c)
                    } else {
                        c
                    };
                    push_char(&mut list.input, typed);
                },
                Key::Backspace => {
                    let _ = pop_char(&mut list.input);
                },
                Key::CapsLock => {
                    list.caps_lock = !list.caps_lock;
                },
                _ => {},
            },
            _ => {},
        }
        effect
    }
}

/// The instant a second before `at`.
fn second_before(at: Timestamp) -> (earlier: Timestamp)
    requires
        at.secs > i64::MIN,
    ensures
        earlier == (Timestamp { secs: (at.secs - 1) as i64, nanos: at.nanos }),
{
    Timestamp { secs: at.secs - 1, nanos: at.nanos }
}

/// The entry that is put in next to `prev`, or first in an empty table as
/// of `now`.
fn make_entry_before(prev: Option<TimeLog>, now: Timestamp) -> (made: TimeLog)
    requires
        (match prev {
            Some(entry) => entry.start,
            None => now,
        }).secs > i64::MIN,
    ensures
        made == entry_before(prev, now),
{
    let anchor: Timestamp = match prev {
        Some(entry) => entry.start,
        None => now,
    };
    TimeLog {
        start: second_before(anchor),
        end: Some(anchor),
        number: match prev {
            Some(entry) => entry.number,
            None => 1,
        },
    }
}

/// Which keys mean what depends on the page and on whether something is
/// being typed.
#[derive(Clone, Copy, Debug, PartialEq, Eq, Structural)]
pub enum Mode {
    Home,
    PickEntry,
    EditEntry,
    Stats,
    PickLabel,
    EditLabel,
}

impl AppView {
    /// The mode that the state is in.
    pub open spec fn mode(self) -> Mode {
        match self.selected_page {
            PageView::Home(StateView::Viewing) => Mode::Home,
            PageView::Home(StateView::Editing { table, .. }) => if table.editing {
                Mode::EditEntry
            } else {
                Mode::PickEntry
            },
            PageView::Stats(_) => Mode::Stats,
            PageView::Settings(list) => if list.editing {
                Mode::EditLabel
            } else {
                Mode::PickLabel
            },
        }
    }

    /// What a digit typed as `key` at `now` changes: the instant, the place
    /// in it, and the digit as typed. Nothing unless an entry is being
    /// typed, the key is a digit, and the cursor is in a time.
    pub open spec fn typing_target(self, key: Key, now: Timestamp) -> Option<
        (Timestamp, usize, char),
    > {
        match (self.selected_page, key) {
            (PageView::Home(StateView::Editing { table, cursor_pos, .. }), Key::Char(c)) => if table.editing
                && digit_value(c).is_some() {
                match digit_target(table.input, cursor_pos, now) {
                    Some((at, pos)) => Some((at, pos, c)),
                    None => None,
                }
            } else {
                None
            },
            _ => None,
        }
    }
}

impl App {
    /// The mode that the state is in.
    pub fn mode(&self) -> (mode: Mode)
        ensures
            mode == self@.mode(),
    {
        match &self.selected_page {
            Page::Home(State::Viewing) => Mode::Home,
            Page::Home(State::Editing { state, .. }) => if state.editing {
                Mode::EditEntry
            } else {
                Mode::PickEntry
            },
            Page::Stats(_) => Mode::Stats,
            Page::Settings(list) => if list.editing {
                Mode::EditLabel
            } else {
                Mode::PickLabel
            },
        }
    }

    /// Answers `key` while a row of the table is picked.
    fn pick_entry_key(&mut self, key: Key, now: Timestamp) -> (effect: KeyEffect)
        requires
            old(self)@.mode() == Mode::PickEntry,
            old(self)@.accepts(key, now),
        ensures
            final(self)@ == old(self)@.after_key(key, now, None, final(self)@.scratch_start()).app,
            effect == old(self)@.after_key(key, now, None, final(self)@.scratch_start()).effect,
    {
        let last_log_idx: usize = if self.today.len() == 0 {
            0
        } else {
            self.today.len() - 1
        };
        let mut effect: KeyEffect = KeyEffect::Nothing;
        let mut leave: bool = false;
        match &mut self.selected_page {
            Page::Home(State::Editing { state, cursor_pos, delete_pending }) => match key {
                Key::Esc | Key::Char('q') => {
                    if *delete_pending {
                        *delete_pending = false;
                    } else {
                        leave = true;
                    }
                },
                Key::Up | Key::Char('k') => {
                    state.select_prev();
                    *delete_pending = false;
                },
                Key::Down | Key::Char('j') => {
                    proof {
                        assert(state.options.len() == state.options@.len());
                    }
                    state.select_next();
                    *delete_pending = false;
                },
                Key::Enter => {
                    if !*delete_pending {
                        state.start_editing(Some(last_log_idx));
                    }
                },
                Key::Char('i') => {
                    if !*delete_pending {
                        let prev: Option<TimeLog> = match state.list_state.selected() {
                            Some(i) => Some(state.options[i]),
                            None => None,
                        };
                        let made: TimeLog = make_entry_before(prev, now);
                        let new_idx: usize = state.insert_at_selection(made);
                        state.start_editing(Some(new_idx));
                        self.today.insert(new_idx, made);
                        effect = KeyEffect::SaveLog;
                    }
                },
                Key::Char('d') => {
                    *delete_pending = true;
                },
                Key::Char('x') => {
                    if *delete_pending {
                        *delete_pending = false;
                        match state.delete_selected() {
                            Some(deleted_idx) => {
                                let _gone: TimeLog = self.today.remove(deleted_idx);
                                effect = KeyEffect::SaveLog;
                            },
                            None => {},
                        }
                    }
                },
                _ => {},
            },
            _ => {},
        }
        if leave {
            self.selected_page = Page::Home(State::Viewing);
        }
        effect
    }

    /// Answers `key` while an entry of the table is being typed.
    fn edit_entry_key(&mut self, key: Key, now: Timestamp, adjusted: Option<Timestamp>) -> (effect:
        KeyEffect)
        requires
            old(self)@.mode() == Mode::EditEntry,
            old(self)@.accepts(key, now),
        ensures
            final(self)@ == old(self)@.after_key(
                key,
                now,
                adjusted,
                final(self)@.scratch_start(),
            ).app,
            effect == old(self)@.after_key(
                key,
                now,
                adjusted,
                final(self)@.scratch_start(),
            ).effect,
    {
        let mut effect: KeyEffect = KeyEffect::Nothing;
        match &mut self.selected_page {
            Page::Home(State::Editing { state, cursor_pos, delete_pending }) => {
                let open: bool = state.input.end.is_none();
                let can_advance: bool = (*cursor_pos < 12 && !open) || *cursor_pos < 7;
                match key {
                    Key::Esc => {
                        state.editing = false;
                        state.input = TimeLog::default();
                        *cursor_pos = 0;
                    },
                    Key::Enter => {
                        let (edited_idx, new_val) = state.save_edit();
                        *cursor_pos = 0;
                        self.today.set(edited_idx, new_val);
                        effect = KeyEffect::SaveLog;
                    },
                    Key::Right => {
                        if can_advance {
                            *cursor_pos = *cursor_pos + 1;
                        }
                    },
                    Key::Left => {
                        if *cursor_pos > 0 {
                            *cursor_pos = *cursor_pos - 1;
                        }
                    },
                    Key::Backspace => {
                        if state.selected_is_last() {
                            state.input.end = None;
                        } else if *cursor_pos > 0 {
                            *cursor_pos = *cursor_pos - 1;
                        } else {
                            self.message = Some(
                                Message::new("Only the final entry can be ongoing".to_owned(), now),
                            );
                        }
                    },
                    Key::Char(c) => match decimal_digit(c) {
                        Some(digit) => {
                            if *cursor_pos == 0 {
                                state.input.number = digit as u8;
                                *cursor_pos = *cursor_pos + 1;
                            } else if *cursor_pos <= 6 {
                                match adjusted {
                                    Some(start) => {
                                        state.input.start = start;
                                        if can_advance {
                                            *cursor_pos = *cursor_pos + 1;
                                        }
                                    },
                                    None => {},
                                }
                            } else {
                                let ended: Timestamp = match state.input.end {
                                    Some(end) => end,
                                    None => now,
                                };
                                state.input.end = Some(ended);
                                match adjusted {
                                    Some(end) => {
                                        state.input.end = Some(end);
                                        if *cursor_pos < 12 {
                                            *cursor_pos = *cursor_pos + 1;
                                        }
                                    },
                                    None => {},
                                }
                            }
                        },
                        None => {
                            if c == ' ' {
                                if can_advance {
                                    *cursor_pos = *cursor_pos + 1;
                                } else if *cursor_pos == 7 && open {
                                    state.input.end = Some(now);
                                    *cursor_pos = *cursor_pos + 1;
                                }
                            }
                        },
                    },
                    _ => {},
                }
            },
            _ => {},
        }
        effect
    }

    /// Whether `key`, pressed at `now`, can be answered.
    pub fn accepts_key(&self, key: Key, now: Timestamp) -> (ok: bool)
        ensures
            ok == self@.accepts(key, now),
    {
        let today_len: usize = self.today.len();
        let last_log_idx: usize = if today_len == 0 {
            0
        } else {
            today_len - 1
        };
        let open_num: Option<u8> = self.open_entry_number();
        match &self.selected_page {
            Page::Home(State::Viewing) => true,
            Page::Home(State::Editing { state, cursor_pos, delete_pending }) => {
                let len: usize = state.options.len();
                let selected: Option<usize> = state.list_state.selected();
                if state.editing {
                    match key {
                        Key::Enter => match selected {
                            Some(i) => i < len && i < today_len,
                            None => false,
                        },
                        Key::Backspace => selected.is_none() || len > 0,
                        Key::Char(c) => decimal_digit(c).is_none() || *cursor_pos
                            <= LAST_CURSOR_POS,
                        _ => true,
                    }
                } else {
                    match key {
                        Key::Up | Key::Char('k') => match selected {
                            Some(i) => i > 0 || len > 0,
                            None => len > 0,
                        },
                        Key::Down | Key::Char('j') => len > 0 && match selected {
                            Some(i) => i < usize::MAX,
                            None => true,
                        },
                        Key::Enter => *delete_pending || match selected {
                            Some(i) => i < len,
                            None => last_log_idx < len,
                        },
                        Key::Char('i') => *delete_pending || match selected {
                            Some(i) => i < len && i <= today_len && state.options[i].start.secs
                                > i64::MIN,
                            None => now.secs > i64::MIN,
                        },
                        Key::Char('x') => !*delete_pending || match selected {
                            Some(i) => i < len && i < today_len,
                            None => true,
                        },
                        _ => true,
                    }
                }
            },
            Page::Stats(_) => true,
            Page::Settings(list) => {
                let len: usize = list.options.len();
                let selected: Option<usize> = list.list_state.selected();
                proof {
                    assert(list@.options.len() == len);
                }
                if list.editing {
                    match key {
                        Key::Enter => match selected {
                            Some(i) => i < len && i < 8,
                            None => false,
                        },
                        _ => true,
                    }
                } else {
                    match key {
                        Key::Up | Key::Char('k') => match selected {
                            Some(i) => i > 0 || len > 0,
                            None => len > 0,
                        },
                        Key::Down | Key::Char('j') => len > 0 && match selected {
                            Some(i) => i < usize::MAX,
                            None => true,
                        },
                        Key::Enter => match selected {
                            Some(i) => i < len && match open_num {
                                Some(number) => number >= 1,
                                None => true,
                            },
                            None => match open_num {
                                Some(number) => number >= 1 && ((number - 1) as usize) < len,
                                None => 0 < len,
                            },
                        },
                        _ => true,
                    }
                }
            },
        }
    }

    /// What a digit typed as `key` at `now` changes.
    pub fn typing_target(&self, key: Key, now: Timestamp) -> (target: Option<
        (Timestamp, usize, char),
    >)
        ensures
            target == self@.typing_target(key, now),
            target matches Some((_, pos, _)) ==> 1 <= pos <= 6,
    {
        match (&self.selected_page, key) {
            (Page::Home(State::Editing { state, cursor_pos, .. }), Key::Char(c)) => {
                if state.editing && decimal_digit(c).is_some() {
                    if 1 <= *cursor_pos && *cursor_pos <= 6 {
                        Some((state.input.start, *cursor_pos, c))
                    } else if 7 <= *cursor_pos && *cursor_pos <= 12 {
                        Some(
                            (
                                match state.input.end {
                                    Some(end) => end,
                                    None => now,
                                },
                                *cursor_pos - 6,
                                c,
                            ),
                        )
                    } else {
                        None
                    }
                } else {
                    None
                }
            },
            _ => None,
        }
    }

    /// Answers `key`, pressed at `now`. `adjusted` is what came of changing
    /// the instant that `typing_target` names, if it names one.
    ///
    /// Where the table gets a new scratch entry, that entry starts at the
    /// moment it is made, which is its start afterwards.
    pub fn apply_key(&mut self, key: Key, now: Timestamp, adjusted: Option<Timestamp>) -> (effect:
        KeyEffect)
        requires
            old(self)@.accepts(key, now),
        ensures
            final(self)@ == old(self)@.after_key(
                key,
                now,
                adjusted,
                final(self)@.scratch_start(),
            ).app,
            effect == old(self)@.after_key(
                key,
                now,
                adjusted,
                final(self)@.scratch_start(),
            ).effect,
    {
        match self.mode() {
            Mode::Home => self.home_key(key, now),
            Mode::PickEntry => self.pick_entry_key(key, now),
            Mode::EditEntry => self.edit_entry_key(key, now, adjusted),
            Mode::Stats => self.stats_key(key),
            Mode::PickLabel => self.pick_label_key(key),
            Mode::EditLabel => self.edit_label_key(key),
        }
    }

    /// Answers `key`, pressed at the moment of the call: reads the clock,
    /// changes the instant under the cursor where a digit is typed into a
    /// time, and answers the key with what came of that. Nothing is done,
    /// and nothing comes back, where the key cannot be answered.
    pub fn handle_key(&mut self, key: Key) -> (effect: Option<KeyEffect>)
        ensures
            match effect {
                Some(effect) => exists|now: Timestamp, adjusted: Option<Timestamp>|
                    old(self)@.accepts(key, now) && final(self)@ == old(self)@.after_key(
                        key,
                        now,
                        adjusted,
                        final(self)@.scratch_start(),
                    ).app && effect == old(self)@.after_key(
                        key,
                        now,
                        adjusted,
                        final(self)@.scratch_start(),
                    ).effect,
                None => *final(self) == *old(self) && exists|now: Timestamp|
                    !old(self)@.accepts(key, now),
            },
    {
        let at: Timestamp = now();
        if !self.accepts_key(key, at) {
            return None;
        }
        let adjusted: Option<Timestamp> = match self.typing_target(key, at) {
            Some((instant, pos, c)) => adjust_datetime_digit(&instant, pos, c),
            None => None,
        };
        Some(self.apply_key(key, at, adjusted))
    }
}

/// How many rounds of the loop pass between two autosaves.
pub const AUTOSAVE_EVERY: usize = 300;

/// Seconds after which a status line is taken down.
pub const MESSAGE_SECS: i64 = 10;

/// The text shown while an autosave is under way.
pub open spec fn autosaving_text() -> Seq<char> {
    "Autosaving..."@
}

/// The text shown while the entries are saved on the way out.
pub open spec fn saving_text() -> Seq<char> {
    "Saving time log..."@
}

/// The text shown last.
pub open spec fn exiting_text() -> Seq<char> {
    "Disconnecting Bluetooth and exiting..."@
}

/// Counts the rounds of the loop from one autosave to the next.
#[derive(Clone, Copy, Debug, PartialEq, Eq, Structural)]
pub struct Ticker {
    pub rounds: usize,
}

/// What a round of the loop ends with.
#[derive(Clone, Copy, Debug, PartialEq, Eq, Structural)]
pub enum Tick {
    /// An autosave.
    Autosave,
    /// A look at the age of the status line.
    Idle,
}

impl Ticker {
    /// The round that the ticker is in counts as an autosave.
    pub open spec fn due(self) -> bool {
        self.rounds == AUTOSAVE_EVERY
    }

    /// A ticker at the start of its count.
    pub fn new() -> (ticker: Ticker)
        ensures
            ticker.rounds == 0,
    {
        Ticker { rounds: 0 }
    }

    /// Ends a round: after three hundred idle rounds comes an autosave,
    /// and the count starts over.
    pub fn tick(&mut self) -> (tick: Tick)
        requires
            old(self).rounds <= AUTOSAVE_EVERY,
        ensures
            final(self).rounds <= AUTOSAVE_EVERY,
            old(self).due() ==> tick == Tick::Autosave && final(self).rounds == 0,
            !old(self).due() ==> tick == Tick::Idle && final(self).rounds == old(self).rounds + 1,
    {
        if self.rounds == AUTOSAVE_EVERY {
            self.rounds = 0;
            Tick::Autosave
        } else {
            self.rounds = self.rounds + 1;
            Tick::Idle
        }
    }
}

/// Whether today's entries belong to a day that is over: there are
/// entries, and the first of them began on another day than `today`.
pub open spec fn day_has_turned(first_day: Option<Date>, today: Date) -> bool {
    first_day matches Some(day) && day != today
}

/// Whether today's entries belong to a day that is over. `first_day` is
/// the day on which the first of them began, if there is one.
pub fn is_new_day(first_day: Option<Date>, today: Date) -> (turned: bool)
    ensures
        turned == day_has_turned(first_day, today),
{
    match first_day {
        Some(day) => day.year != today.year || day.month != today.month || day.day != today.day,
        None => false,
    }
}

/// The instant one nanosecond before `at`.
pub open spec fn just_before(at: Timestamp) -> Timestamp {
    if at.nanos > 0 {
        Timestamp { secs: at.secs, nanos: (at.nanos - 1) as u32 }
    } else {
        Timestamp { secs: (at.secs - 1) as i64, nanos: 999_999_999 }
    }
}

/// The instant one nanosecond before `at`; nothing before the first
/// instant there is.
pub fn nanosecond_before(at: Timestamp) -> (earlier: Option<Timestamp>)
    ensures
        earlier == (if at.nanos > 0 || at.secs > i64::MIN {
            Some(just_before(at))
        } else {
            None
        }),
        at.wf() && earlier.is_some() ==> earlier.unwrap().as_nanos() == at.as_nanos() - 1,
{
    if at.nanos > 0 {
        Some(Timestamp { secs: at.secs, nanos: at.nanos - 1 })
    } else if at.secs > i64::MIN {
        Some(Timestamp { secs: at.secs - 1, nanos: 999_999_999 })
    } else {
        None
    }
}

/// The last instant of the local day on which `start` lies, where
/// `chrono` has one: a day on from `start`, back to the start of that day,
/// and a nanosecond before that. What comes back is the last nanosecond
/// of a second; which second it is, and whether there is one, is left to
/// `chrono` and the time zone.
pub fn end_of_day(start: &Timestamp) -> (end: Option<Timestamp>)
    ensures
        end matches Some(t) ==> t.nanos == 999_999_999,
{
    match next_local_day(*start) {
        Some(tomorrow) => match datetime_with_zeroed_time(&tomorrow) {
            Some(midnight) => nanosecond_before(midnight),
            None => None,
        },
        None => None,
    }
}

impl AppView {
    /// The state when an autosave begins at `now`: the status line says
    /// so, and if the day has turned while an entry was running, that
    /// entry ends at `end_of_day`.
    pub open spec fn begin_autosave(
        self,
        now: Timestamp,
        turned: bool,
        end_of_day: Timestamp,
    ) -> AppView {
        let announced = AppView {
            message: Some(MessageView { text: autosaving_text(), at: now }),
            ..self
        };
        if turned {
            announced.close_entry_if_open(end_of_day)
        } else {
            announced
        }
    }

    /// The entry that is carried over into the new day: the one that was
    /// running when the day turned.
    pub open spec fn carried(self, turned: bool) -> Option<TimeLog> {
        if turned {
            self.open_entry()
        } else {
            None
        }
    }

    /// The state when an autosave has been written: if the day has
    /// turned, today's entries are gone, but for the one that was carried
    /// over, which runs on from `start_of_day`.
    pub open spec fn finish_autosave(
        self,
        turned: bool,
        carried: Option<TimeLog>,
        start_of_day: Timestamp,
    ) -> AppView {
        if turned {
            AppView {
                today: match carried {
                    Some(entry) => seq![TimeLog { start: start_of_day, ..entry }],
                    None => Seq::empty(),
                },
                ..self
            }
        } else {
            self
        }
    }

    /// Whether the status line has been up for more than ten seconds at
    /// `now`.
    pub open spec fn message_is_stale(self, now: Timestamp) -> bool {
        self.message matches Some(message) && now.as_nanos() - message.at.as_nanos() > MESSAGE_SECS
            * 1_000_000_000
    }

    /// The state after an idle round at `now`: a status line that has
    /// been up for more than ten seconds is taken down.
    pub open spec fn expire_message(self, now: Timestamp) -> AppView {
        if self.message_is_stale(now) {
            AppView { message: None, ..self }
        } else {
            self
        }
    }

    /// The state when the program is left at `now`: the running entry
    /// ends, and the status line says that the entries are being saved.
    pub open spec fn begin_quit(self, now: Timestamp) -> AppView {
        AppView {
            message: Some(MessageView { text: saving_text(), at: now }),
            ..self.close_entry_if_open(now)
        }
    }
}

impl App {
    /// Begins an autosave at `now`. `turned` says whether the day has
    /// turned, and `end_of_day` is the last instant of the day on which
    /// the running entry began. Gives back the entry to carry over into
    /// the new day.
    pub fn begin_autosave_at(&mut self, now: Timestamp, turned: bool, end_of_day: Timestamp) -> (carried:
        Option<TimeLog>)
        ensures
            final(self)@ == old(self)@.begin_autosave(now, turned, end_of_day),
            carried == old(self)@.carried(turned),
    {
        self.message = Some(Message::new("Autosaving...".to_owned(), now));
        if turned && self.has_open_entry() {
            let running: TimeLog = self.today[self.today.len() - 1];
            self.close_entry_if_open(end_of_day);
            Some(running)
        } else {
            None
        }
    }

    /// Ends an autosave once the entries have been written.
    pub fn finish_autosave_at(
        &mut self,
        turned: bool,
        carried: Option<TimeLog>,
        start_of_day: Timestamp,
    )
        ensures
            final(self)@ == old(self)@.finish_autosave(turned, carried, start_of_day),
    {
        if turned {
            self.today.clear();
            match carried {
                Some(entry) => {
                    self.today.push(TimeLog { start: start_of_day, end: entry.end, number: entry.number });
                },
                None => {},
            }
            assert(self@.today =~= old(self)@.finish_autosave(turned, carried, start_of_day).today);
        }
    }

    /// Takes the status line down at `now` if it has been up for more
    /// than ten seconds.
    pub fn expire_message_at(&mut self, now: Timestamp)
        ensures
            final(self)@ == old(self)@.expire_message(now),
    {
        let stale: bool = match &self.message {
            Some(message) => {
                let age: i128 = (now.secs as i128 * 1_000_000_000 + now.nanos as i128) - (
                message.1.secs as i128 * 1_000_000_000 + message.1.nanos as i128);
                age > 10_000_000_000
            },
            None => false,
        };
        if stale {
            self.message = None;
        }
    }

    /// Begins leaving the program at `now`.
    pub fn begin_quit_at(&mut self, now: Timestamp)
        ensures
            final(self)@ == old(self)@.begin_quit(now),
    {
        self.close_entry_if_open(now);
        self.message = Some(Message::new("Saving time log...".to_owned(), now));
    }

    /// Says at `now` that the program is about to end.
    pub fn announce_exit_at(&mut self, now: Timestamp)
        ensures
            final(self)@ == (AppView {
                message: Some(MessageView { text: exiting_text(), at: now }),
                ..old(self)@
            }),
    {
        self.message = Some(
            Message::new("Disconnecting Bluetooth and exiting...".to_owned(), now),
        );
    }

    /// Begins an autosave at the moment of the call: reads the clock and
    /// the calendar and does as `begin_autosave_at` says. Gives back
    /// whether the day has turned and the entry to carry over; nothing is
    /// done, and nothing comes back, where the day has turned and `chrono`
    /// has no end for the day of the running entry.
    ///
    /// With no entry running the autosave always begins, and nothing is
    /// carried over; with no entries at all the day has not turned. An
    /// entry that ends because the day has turned ends on the last
    /// nanosecond of a second.
    pub fn begin_autosave(&mut self) -> (begun: Option<(bool, Option<TimeLog>)>)
        ensures
            match begun {
                Some((turned, carried)) => carried == old(self)@.carried(turned) && exists|
                    now: Timestamp,
                    end_of_day: Timestamp,
                |
                    final(self)@ == old(self)@.begin_autosave(now, turned, end_of_day) && (
                    carried.is_some() ==> end_of_day.nanos == 999_999_999),
                None => *final(self) == *old(self),
            },
            old(self)@.open_entry().is_none() ==> begun.is_some(),
            old(self)@.today.len() == 0 ==> begun == Some((false, None::<TimeLog>)),
    {
        let first_day: Option<Date> = if self.today.len() > 0 {
            local_date(self.today[0].start)
        } else {
            None
        };
        let turned: bool = is_new_day(first_day, today());
        let at: Timestamp = now();
        if turned && self.has_open_entry() {
            let running: TimeLog = self.today[self.today.len() - 1];
            match end_of_day(&running.start) {
                Some(end) => {
                    let carried = self.begin_autosave_at(at, turned, end);
                    Some((turned, carried))
                },
                None => None,
            }
        } else {
            let carried = self.begin_autosave_at(at, turned, at);
            Some((turned, carried))
        }
    }

    /// Ends an autosave at the moment of the call, once the entries have
    /// been written: an entry that is carried over runs on from the start
    /// of the local day that it is, which lies on a whole second. Nothing
    /// is done, and `false` comes back, where there is an entry to carry
    /// over and `chrono` has no start for that day.
    ///
    /// With nothing to carry over the autosave always ends: if the day
    /// has not turned nothing changes, and if it has, today's entries are
    /// gone.
    pub fn finish_autosave(&mut self, turned: bool, carried: Option<TimeLog>) -> (done: bool)
        ensures
            done ==> exists|start_of_day: Timestamp|
                final(self)@ == old(self)@.finish_autosave(turned, carried, start_of_day) && (
                turned && carried.is_some() ==> start_of_day.nanos == 0),
            !done ==> *final(self) == *old(self) && turned && carried.is_some(),
            !turned ==> done && final(self)@ == old(self)@,
            turned && carried.is_none() ==> done && final(self)@ == (AppView {
                today: Seq::empty(),
                ..old(self)@
            }),
    {
        let at: Timestamp = now();
        match datetime_with_zeroed_time(&at) {
            Some(start_of_day) => {
                self.finish_autosave_at(turned, carried, start_of_day);
                true
            },
            None => {
                if turned && carried.is_some() {
                    false
                } else {
                    self.finish_autosave_at(turned, carried, at);
                    true
                }
            },
        }
    }
}

impl AppView {
    /// The cursor is inside the entry that is being typed: no further
    /// than its last place.
    pub open spec fn cursor_in_entry(self) -> bool {
        self.selected_page matches PageView::Home(StateView::Editing { table, cursor_pos, .. })
            ==> cursor_pos <= LAST_CURSOR_POS
    }
}

/// Whatever key is pressed, the cursor stays inside the entry that is
/// being typed.
pub proof fn lemma_cursor_stays_in_entry(
    app: AppView,
    key: Key,
    now: Timestamp,
    adjusted: Option<Timestamp>,
    fresh: Timestamp,
)
    requires
        app.cursor_in_entry(),
    ensures
        app.after_key(key, now, adjusted, fresh).app.cursor_in_entry(),
{
}

/// An entry is deleted only by `x` after `d`: no other key makes today's
/// entries fewer, and `x` takes at most one off.
pub proof fn lemma_deleting_takes_two_keys(
    app: AppView,
    key: Key,
    now: Timestamp,
    adjusted: Option<Timestamp>,
    fresh: Timestamp,
)
    requires
        app.accepts(key, now),
    ensures
        app.after_key(key, now, adjusted, fresh).app.today.len() >= app.today.len() - 1,
        app.after_key(key, now, adjusted, fresh).app.today.len() < app.today.len() ==> key
            == Key::Char('x') && (app.selected_page matches PageView::Home(
            StateView::Editing { table, delete_pending, .. },
        ) && delete_pending && !table.editing),
{
}

/// Only the keys that ask for it leave something to do: leaving takes `q`
/// on the home page, and saving the preferences takes Enter while a label
/// is typed.
pub proof fn lemma_effects_are_asked_for(
    app: AppView,
    key: Key,
    now: Timestamp,
    adjusted: Option<Timestamp>,
    fresh: Timestamp,
)
    ensures
        app.after_key(key, now, adjusted, fresh).effect == KeyEffect::Quit ==> key == Key::Char('q')
            && app.mode() == Mode::Home,
        app.after_key(key, now, adjusted, fresh).effect == KeyEffect::SavePrefs ==> key
            == Key::Enter && app.mode() == Mode::EditLabel,
        app.after_key(key, now, adjusted, fresh).effect == KeyEffect::SaveLog ==> app.mode()
            == Mode::PickEntry || app.mode() == Mode::EditEntry,
        app.after_key(key, now, adjusted, fresh).effect is LoadStats ==> app.mode() == Mode::Home
            || app.mode() == Mode::Stats,
{
}

} // verus!
