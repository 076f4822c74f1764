//! The state that the pages and the tracker share: today's entries, the
//! status line, the page on show and the user's preferences.

use crate::clock::now;
use crate::clock::Timestamp;
use crate::clock::Weekday;
use crate::entry::is_side;
use crate::entry::TimeLog;
use crate::ui::editable_list::texts;
use crate::ui::editable_list::ListView;
use crate::ui::editable_list::TuiState;
use crate::ui::Page;
use crate::ui::PageView;
use vstd::prelude::*;

verus! {

/// A line of status text and the moment it was set.
#[derive(Debug)]
pub struct Message(pub String, pub Timestamp);

/// A status line as text and time.
pub struct MessageView {
    pub text: Seq<char>,
    pub at: Timestamp,
}

impl View for Message {
    type V = MessageView;

    open spec fn view(&self) -> MessageView {
        MessageView { text: self.0@, at: self.1 }
    }
}

impl Message {
    /// The status line `text`, set at `at`.
    pub fn new(text: String, at: Timestamp) -> (message: Message)
        ensures
            message@ == (MessageView { text: text@, at }),
    {
        Message(text, at)
    }

    /// The status line `text`, set at the moment of the call.
    pub fn from(text: &str) -> (message: Message)
        ensures
            message@.text == text@,
    {
        Message(text.to_owned(), now())
    }
}

impl Default for Message {
    /// An empty status line, set at the moment of the call.
    fn default() -> (message: Message)
        ensures
            message@.text.len() == 0,
    {
        Message(String::new(), now())
    }
}

/// What the user has chosen: a label for each category and the day that a
/// week starts on.
#[derive(Debug, Clone)]
pub struct Preferences {
    pub labels: Option<[String; 8]>,
    pub week_start_day: Option<Weekday>,
}

/// The preferences with the labels as texts.
pub struct PreferencesView {
    pub labels: Option<Seq<Seq<char>>>,
    pub week_start_day: Option<Weekday>,
}

impl View for Preferences {
    type V = PreferencesView;

    open spec fn view(&self) -> PreferencesView {
        PreferencesView {
            labels: match self.labels {
                Some(labels) => Some(texts(labels@)),
                None => None,
            },
            week_start_day: self.week_start_day,
        }
    }
}

impl Default for Preferences {
    fn default() -> (prefs: Preferences)
        ensures
            prefs.labels.is_none(),
            prefs.week_start_day.is_none(),
    {
        Preferences { labels: None, week_start_day: None }
    }
}

/// The shared state.
#[derive(Debug)]
pub struct App {
    /// Today's entries, oldest first. Only the last one can be running.
    pub today: Vec<TimeLog>,
    pub message: Option<Message>,
    pub tracker_connected: bool,
    pub selected_page: Page,
    pub preferences: Preferences,
}

/// The shared state with its entries as a sequence and its status line as
/// text.
pub struct AppView {
    pub today: Seq<TimeLog>,
    pub message: Option<MessageView>,
    pub tracker_connected: bool,
    pub selected_page: PageView,
    pub preferences: PreferencesView,
}

/// The text shown when the tracker has been connected.
pub open spec fn connected_text() -> Seq<char> {
    "Successfully connected to tracker"@
}

/// The text shown when the connection to the tracker is gone.
pub open spec fn disconnected_text() -> Seq<char> {
    "Connection to tracker lost"@
}

impl AppView {
    /// The entry that is running, if one is: the last entry, while it has
    /// no end.
    pub open spec fn open_entry(self) -> Option<TimeLog> {
        if self.today.len() > 0 && self.today.last().end.is_none() {
            Some(self.today.last())
        } else {
            None
        }
    }

    /// The category of the running entry.
    pub open spec fn open_entry_number(self) -> Option<u8> {
        match self.open_entry() {
            Some(entry) => Some(entry.number),
            None => None,
        }
    }

    /// The state once the running entry, if any, has ended at `now`.
    /// Nothing else changes.
    pub open spec fn close_entry_if_open(self, now: Timestamp) -> AppView {
        match self.open_entry() {
            Some(entry) => AppView {
                today: self.today.update(self.today.len() - 1, entry.closed_at(now)),
                ..self
            },
            None => self,
        }
    }

    /// The page once an entry for category `number` has started: the
    /// settings page, unless a label is being typed, moves its highlight
    /// to that category's label; any other page stays as it is.
    pub open spec fn page_after_start(self, number: u8) -> PageView {
        match self.selected_page {
            PageView::Settings(list) => if list.editing {
                self.selected_page
            } else {
                PageView::Settings(ListView { selected: Some((number - 1) as usize), ..list })
            },
            _ => self.selected_page,
        }
    }

    /// The state once an entry for category `number` has started at `now`:
    /// the running entry, if any, ends at `now`, and a running entry for
    /// `number` that starts at `now` follows it.
    pub open spec fn start_entry(self, number: u8, now: Timestamp) -> AppView {
        AppView {
            today: self.close_entry_if_open(now).today.push(
                TimeLog { start: now, end: None, number },
            ),
            selected_page: self.page_after_start(number),
            ..self
        }
    }

    /// The state once the tracker has been found connected or not: the
    /// flag, and a status line that says so, set at `now`.
    pub open spec fn set_connected(self, connected: bool, now: Timestamp) -> AppView {
        AppView {
            tracker_connected: connected,
            message: Some(
                MessageView {
                    text: if connected {
                        connected_text()
                    } else {
                        disconnected_text()
                    },
                    at: now,
                },
            ),
            ..self
        }
    }
}

impl View for App {
    type V = AppView;

    open spec fn view(&self) -> AppView {
        AppView {
            today: self.today@,
            message: match self.message {
                Some(m) => Some(m@),
                None => None,
            },
            tracker_connected: self.tracker_connected,
            selected_page: self.selected_page@,
            preferences: self.preferences@,
        }
    }
}

impl Default for App {
    /// No entries, no status line, no tracker, the home page and default
    /// preferences.
    fn default() -> (app: App)
        ensures
            app@.today.len() == 0,
            app@.message.is_none(),
            !app@.tracker_connected,
            app@.selected_page == PageView::Home(crate::ui::home::StateView::Viewing),
            app@.preferences.labels.is_none(),
            app@.preferences.week_start_day.is_none(),
    {
        App {
            today: Vec::new(),
            message: None,
            tracker_connected: false,
            selected_page: Page::default(),
            preferences: Preferences::default(),
        }
    }
}

impl App {
    /// Whether an entry is running.
    pub fn has_open_entry(&self) -> (open: bool)
        ensures
            open == self@.open_entry().is_some(),
    {
        let n: usize = self.today.len();
        n > 0 && self.today[n - 1].is_open()
    }

    /// Ends the running entry, if there is one, at `now`.
    pub fn close_entry_if_open(&mut self, now: Timestamp)
        ensures
            final(self)@ == old(self)@.close_entry_if_open(now),
    {
        if self.has_open_entry() {
            let n: usize = self.today.len();
            let mut last: TimeLog = self.today[n - 1];
            last.end = Some(now);
            self.today.set(n - 1, last);
        }
    }

    /// The category of the running entry, if there is one.
    pub fn open_entry_number(&self) -> (number: Option<u8>)
        ensures
            number == self@.open_entry_number(),
    {
        let n: usize = self.today.len();
        if n > 0 {
            let last: TimeLog = self.today[n - 1];
            if last.is_open() {
                return Some(last.number);
            }
        }
        None
    }

    /// Starts an entry for category `number` at `now`, ending the running
    /// entry at the same instant.
    pub fn start_entry_at(&mut self, number: u8, now: Timestamp)
        requires
            is_side(number),
        ensures
            final(self)@ == old(self)@.start_entry(number, now),
    {
        self.close_entry_if_open(now);
        self.today.push(TimeLog { start: now, end: None, number });
        match &mut self.selected_page {
            Page::Settings(list) => {
                if !list.editing {
                    list.list_state.select(Some((number - 1) as usize));
                }
            },
            _ => {},
        }
    }

    /// Starts an entry for category `number` at the moment of the call:
    /// `start_entry_at` with the reading of the clock, which is the start of
    /// the last entry afterwards.
    pub fn start_entry(&mut self, number: u8)
        requires
            is_side(number),
        ensures
            final(self)@.today.len() > 0,
            final(self)@ == old(self)@.start_entry(number, final(self)@.today.last().start),
    {
        let at: Timestamp = now();
        self.start_entry_at(number, at);
    }

    /// Records at `now` whether the tracker is connected, and says so in
    /// the status line.
    pub fn set_connected_at(&mut self, connected: bool, now: Timestamp)
        ensures
            final(self)@ == old(self)@.set_connected(connected, now),
    {
        self.tracker_connected = connected;
        let text: &str = if connected {
            "Successfully connected to tracker"
        } else {
            "Connection to tracker lost"
        };
        self.message = Some(Message::new(text.to_owned(), now));
    }

    /// Records whether the tracker is connected, and says so in a status
    /// line set at the moment of the call.
    pub fn set_connected(&mut self, connected: bool)
        ensures
            final(self)@.message.is_some(),
            final(self)@ == old(self)@.set_connected(
                connected,
                final(self)@.message.unwrap().at,
            ),
    {
        let at: Timestamp = now();
        self.set_connected_at(connected, at);
    }

    /// Puts `message` in the status line.
    pub fn set_message(&mut self, message: Message)
        ensures
            final(self)@ == (AppView { message: Some(message@), ..old(self)@ }),
    {
        self.message = Some(message);
    }
}

/// The text shown when today's entries have been loaded.
pub open spec fn loaded_text() -> Seq<char> {
    "Loaded today's time log from save file"@
}

/// The text shown when today's entries could not be loaded, for the
/// reason `kind`.
pub open spec fn not_loaded_text(kind: Seq<char>) -> Seq<char> {
    "Could not load today's log from save: "@ + kind
}

/// Whether `entries` are in the order of their starts.
pub open spec fn in_order(entries: Seq<TimeLog>) -> bool {
    forall|i: int, j: int|
        0 <= i <= j < entries.len() ==> (#[trigger] entries[i]).start.spec_le(
            (#[trigger] entries[j]).start,
        )
}

/// `slice::sort_unstable_by_key`, with the seconds and the nanoseconds of
/// the start as the key: afterwards the entries are the same ones, in the
/// order of their starts. Which of two entries with the same start comes
/// first is left open.
#[verifier::external_body]
fn sort_by_start(entries: &mut Vec<TimeLog>)
    ensures
        in_order(final(entries)@),
        final(entries)@.to_multiset() == old(entries)@.to_multiset(),
{
    entries.sort_unstable_by_key(|entry| (entry.start.secs, entry.start.nanos))
}

impl App {
    /// The state at the start of the program, from what was found on
    /// disk: the preferences, and today's entries or the reason why there
    /// are none. Entries that were found are put in the order of their
    /// starts, and the status line, set at `now`, says how loading went.
    pub fn restored(
        preferences: Preferences,
        loaded: Result<Vec<TimeLog>, String>,
        now: Timestamp,
    ) -> (app: App)
        ensures
            app@.preferences == preferences@,
            !app@.tracker_connected,
            app@.selected_page == PageView::Home(crate::ui::home::StateView::Viewing),
            match loaded {
                Ok(entries) => {
                    &&& in_order(app@.today)
                    &&& app@.today.to_multiset() == entries@.to_multiset()
                    &&& app@.message == Some(MessageView { text: loaded_text(), at: now })
                },
                Err(kind) => {
                    &&& app@.today.len() == 0
                    &&& app@.message == Some(MessageView { text: not_loaded_text(kind@), at: now })
                },
            },
    {
        match loaded {
            Ok(entries) => {
                let mut today: Vec<TimeLog> = entries;
                sort_by_start(&mut today);
                App {
                    today,
                    message: Some(
                        Message::new("Loaded today's time log from save file".to_owned(), now),
                    ),
                    tracker_connected: false,
                    selected_page: Page::default(),
                    preferences,
                }
            },
            Err(kind) => {
                let mut text: String = "Could not load today's log from save: ".to_owned();
                text.append(kind.as_str());
                App {
                    today: Vec::new(),
                    message: Some(Message::new(text, now)),
                    tracker_connected: false,
                    selected_page: Page::default(),
                    preferences,
                }
            },
        }
    }
}

} // verus!
