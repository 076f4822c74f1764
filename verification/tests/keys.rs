use chrono::TimeZone;
use chrono::Timelike;
use ydnc_time::app::App;
use ydnc_time::clock::Date;
use ydnc_time::clock::Timestamp;
use ydnc_time::control::end_of_day;
use ydnc_time::control::is_new_day;
use ydnc_time::control::nanosecond_before;
use ydnc_time::control::to_upper;
use ydnc_time::control::Key;
use ydnc_time::control::KeyEffect;
use ydnc_time::control::Mode;
use ydnc_time::control::Tick;
use ydnc_time::control::Ticker;
use ydnc_time::entry::TimeLog;
use ydnc_time::ui::editable_list::EditableList;
use ydnc_time::ui::editable_list::ListState;
use ydnc_time::ui::editable_list::TableState;
use ydnc_time::ui::home::State;
use ydnc_time::ui::stats::DateRangeOption;
use ydnc_time::ui::Page;

fn at(secs: i64) -> Timestamp {
    Timestamp::new(secs, 0)
}

fn entry(start: i64, end: Option<i64>, number: u8) -> TimeLog {
    TimeLog { start: at(start), end: end.map(at), number }
}

fn press(app: &mut App, key: Key, now: i64) -> KeyEffect {
    assert!(app.accepts_key(key, at(now)));
    app.apply_key(key, at(now), None)
}

fn table(app: &App) -> (&EditableList<TableState, TimeLog>, usize, bool) {
    match &app.selected_page {
        Page::Home(State::Editing { state, cursor_pos, delete_pending }) => {
            (state, *cursor_pos, *delete_pending)
        }
        _ => panic!("the table is not on show"),
    }
}

fn labels(app: &App) -> &EditableList<ListState, String> {
    match &app.selected_page {
        Page::Settings(list) => list,
        _ => panic!("the labels are not on show"),
    }
}

fn app_with(entries: Vec<TimeLog>) -> App {
    let mut app = App::default();
    app.today = entries;
    app
}

#[test]
fn number_keys_start_and_stop_entries() {
    let mut app = App::default();
    assert_eq!(app.mode(), Mode::Home);
    assert_eq!(press(&mut app, Key::Char('3'), 10), KeyEffect::Nothing);
    assert_eq!(app.today, vec![entry(10, None, 3)]);
    assert_eq!(press(&mut app, Key::Char('8'), 20), KeyEffect::Nothing);
    assert_eq!(app.today, vec![entry(10, Some(20), 3), entry(20, None, 8)]);
    // 9 is no category.
    assert_eq!(press(&mut app, Key::Char('9'), 25), KeyEffect::Nothing);
    assert_eq!(app.today.len(), 2);
    assert_eq!(press(&mut app, Key::Char('0'), 30), KeyEffect::Nothing);
    assert_eq!(app.today, vec![entry(10, Some(20), 3), entry(20, Some(30), 8)]);
    press(&mut app, Key::Char('1'), 40);
    assert_eq!(press(&mut app, Key::Esc, 50), KeyEffect::Nothing);
    assert_eq!(app.today[2], entry(40, Some(50), 1));
    assert_eq!(press(&mut app, Key::Up, 60), KeyEffect::Nothing);
    assert_eq!(app.today.len(), 3);
    assert_eq!(press(&mut app, Key::Char('q'), 60), KeyEffect::Quit);
    assert_eq!(press(&mut app, Key::Char('h'), 60), KeyEffect::LoadStats(DateRangeOption::Today));
    assert_eq!(app.mode(), Mode::Home);
}

#[test]
fn start_entry_moves_the_highlight_of_the_labels() {
    let mut app = App::default();
    assert_eq!(press(&mut app, Key::Char('s'), 1), KeyEffect::Nothing);
    assert_eq!(app.mode(), Mode::PickLabel);
    assert_eq!(app.preferences.labels, Some([(); 8].map(|_| String::new())));
    assert_eq!(labels(&app).options, vec![String::new(); 8]);
    app.start_entry_at(5, at(2));
    assert_eq!(labels(&app).list_state.selected, Some(4));
    // Not while a label is typed.
    press(&mut app, Key::Enter, 3);
    assert_eq!(app.mode(), Mode::EditLabel);
    app.start_entry_at(2, at(4));
    assert_eq!(labels(&app).list_state.selected, Some(4));
    app.start_entry(7);
    assert_eq!(app.today.len(), 3);
    assert_eq!(app.today[1].end, Some(app.today[2].start));
}

#[test]
fn labels_are_typed_and_saved() {
    let mut app = App::default();
    press(&mut app, Key::Char('s'), 1);
    assert_eq!(press(&mut app, Key::Down, 1), KeyEffect::Nothing);
    assert_eq!(press(&mut app, Key::Char('j'), 1), KeyEffect::Nothing);
    assert_eq!(press(&mut app, Key::Up, 1), KeyEffect::Nothing);
    assert_eq!(labels(&app).list_state.selected, Some(0));
    assert_eq!(press(&mut app, Key::Char('k'), 1), KeyEffect::Nothing);
    assert_eq!(labels(&app).list_state.selected, Some(7));
    assert_eq!(press(&mut app, Key::Enter, 1), KeyEffect::Nothing);
    assert!(labels(&app).editing);
    for key in [
        Key::Char('n'),
        Key::CapsLock,
        Key::Char('a'),
        Key::Char('ä'),
        Key::Char('1'),
        Key::CapsLock,
        Key::Char('p'),
        Key::Char('x'),
        Key::Backspace,
        Key::Left,
    ] {
        assert_eq!(press(&mut app, key, 1), KeyEffect::Nothing);
    }
    assert_eq!(labels(&app).input, "nAä1p");
    assert_eq!(press(&mut app, Key::Enter, 1), KeyEffect::SavePrefs);
    assert_eq!(app.preferences.labels.as_ref().unwrap()[7], "nAä1p");
    assert_eq!(labels(&app).options[7], "nAä1p");
    assert_eq!(labels(&app).input, "");
    assert!(!labels(&app).editing);

    // Esc drops what was typed.
    press(&mut app, Key::Enter, 1);
    assert_eq!(labels(&app).input, "nAä1p");
    press(&mut app, Key::Backspace, 1);
    press(&mut app, Key::Esc, 1);
    assert_eq!(labels(&app).input, "");
    assert_eq!(app.preferences.labels.as_ref().unwrap()[7], "nAä1p");
    // Backspace on nothing is nothing.
    press(&mut app, Key::Enter, 1);
    for _ in 0..7 {
        press(&mut app, Key::Backspace, 1);
    }
    assert_eq!(labels(&app).input, "");
    press(&mut app, Key::Esc, 1);
    assert_eq!(press(&mut app, Key::Char('q'), 1), KeyEffect::Nothing);
    assert_eq!(app.mode(), Mode::Home);
    for c in ['a', 'z', 'm'] {
        assert_eq!(to_upper(c), c.to_ascii_uppercase());
    }
    for c in ['A', '1', ' ', 'ä', '{', '`'] {
        assert_eq!(to_upper(c), c);
        assert_eq!(to_upper(c), c.to_ascii_uppercase());
    }
}

#[test]
fn enter_on_labels_picks_the_running_category() {
    let mut app = app_with(vec![entry(1, None, 6)]);
    press(&mut app, Key::Char('s'), 2);
    press(&mut app, Key::Enter, 2);
    assert_eq!(labels(&app).list_state.selected, Some(5));
    assert!(labels(&app).editing);
}

#[test]
fn history_keys_ask_for_the_next_range() {
    let mut app = App::default();
    let stats = ydnc_time::stats::compute_stats(&vec![]);
    app.selected_page = Page::Stats(Some(ydnc_time::ui::stats::State::new(
        stats,
        DateRangeOption::Today,
        None,
        Date::new(2024, 1, 1).unwrap(),
    )));
    assert_eq!(app.mode(), Mode::Stats);
    for key in [Key::Right, Key::Down, Key::Tab, Key::Char('l'), Key::Char('j')] {
        assert_eq!(press(&mut app, key, 1), KeyEffect::LoadStats(DateRangeOption::ThisWeek));
    }
    for key in [Key::Left, Key::Up, Key::BackTab, Key::Char('h'), Key::Char('k')] {
        assert_eq!(press(&mut app, key, 1), KeyEffect::LoadStats(DateRangeOption::AllTime));
    }
    assert_eq!(press(&mut app, Key::Char('x'), 1), KeyEffect::Nothing);
    assert_eq!(app.mode(), Mode::Stats);
    assert_eq!(press(&mut app, Key::Esc, 1), KeyEffect::Nothing);
    assert_eq!(app.mode(), Mode::Home);
    app.selected_page = Page::Stats(None);
    assert_eq!(press(&mut app, Key::Right, 1), KeyEffect::Nothing);
    assert_eq!(press(&mut app, Key::Char('q'), 1), KeyEffect::Nothing);
    assert_eq!(app.mode(), Mode::Home);
}

#[test]
fn table_keys_pick_insert_and_delete() {
    let mut app = app_with(vec![entry(100, Some(200), 2), entry(200, None, 4)]);
    assert_eq!(press(&mut app, Key::Char('e'), 300), KeyEffect::Nothing);
    assert_eq!(app.mode(), Mode::PickEntry);
    assert_eq!(table(&app).0.options, app.today);
    assert_eq!(press(&mut app, Key::Down, 300), KeyEffect::Nothing);
    assert_eq!(table(&app).0.list_state.selected, Some(0));
    assert_eq!(press(&mut app, Key::Char('j'), 300), KeyEffect::Nothing);
    assert_eq!(table(&app).0.list_state.selected, Some(1));

    // Insert before the highlighted row: one second long, up to its start.
    assert_eq!(press(&mut app, Key::Char('i'), 300), KeyEffect::SaveLog);
    let made = entry(199, Some(200), 4);
    assert_eq!(app.today, vec![entry(100, Some(200), 2), made, entry(200, None, 4)]);
    assert_eq!(table(&app).0.options, app.today);
    assert_eq!(table(&app).0.input, made);
    assert_eq!(table(&app).0.list_state.selected, Some(1));
    assert_eq!(app.mode(), Mode::EditEntry);
    press(&mut app, Key::Esc, 300);
    assert_eq!(app.mode(), Mode::PickEntry);
    assert_eq!(table(&app).0.input.number, 1);

    // Deleting takes d and then x; Esc takes the d back.
    assert_eq!(press(&mut app, Key::Char('x'), 300), KeyEffect::Nothing);
    assert_eq!(app.today.len(), 3);
    assert_eq!(press(&mut app, Key::Char('d'), 300), KeyEffect::Nothing);
    assert!(table(&app).2);
    assert_eq!(press(&mut app, Key::Enter, 300), KeyEffect::Nothing);
    assert_eq!(press(&mut app, Key::Char('i'), 300), KeyEffect::Nothing);
    assert_eq!(app.mode(), Mode::PickEntry);
    assert_eq!(press(&mut app, Key::Esc, 300), KeyEffect::Nothing);
    assert!(!table(&app).2);
    press(&mut app, Key::Char('d'), 300);
    assert_eq!(press(&mut app, Key::Up, 300), KeyEffect::Nothing);
    assert!(!table(&app).2);
    assert_eq!(table(&app).0.list_state.selected, Some(0));
    press(&mut app, Key::Char('d'), 300);
    assert_eq!(press(&mut app, Key::Char('x'), 300), KeyEffect::SaveLog);
    assert_eq!(app.today, vec![made, entry(200, None, 4)]);
    assert_eq!(table(&app).0.options, app.today);
    assert_eq!(table(&app).0.list_state.selected, None);
    assert!(!table(&app).2);
    // With nothing highlighted x takes the request back and deletes nothing.
    press(&mut app, Key::Char('d'), 300);
    assert_eq!(press(&mut app, Key::Char('x'), 300), KeyEffect::Nothing);
    assert_eq!(app.today.len(), 2);
    assert!(!table(&app).2);
    assert_eq!(press(&mut app, Key::Char('q'), 300), KeyEffect::Nothing);
    assert_eq!(app.mode(), Mode::Home);
}

#[test]
fn insert_into_an_empty_table_uses_the_clock() {
    let mut app = App::default();
    press(&mut app, Key::Char('e'), 500);
    // Nothing to move to and nothing to type over.
    assert!(!app.accepts_key(Key::Up, at(500)));
    assert!(!app.accepts_key(Key::Down, at(500)));
    assert!(!app.accepts_key(Key::Enter, at(500)));
    assert_eq!(press(&mut app, Key::Char('i'), 500), KeyEffect::SaveLog);
    assert_eq!(app.today, vec![entry(499, Some(500), 1)]);
    assert_eq!(table(&app).0.list_state.selected, Some(0));
    assert_eq!(app.mode(), Mode::EditEntry);
}

#[test]
fn enter_types_over_the_last_entry_by_default() {
    let mut app = app_with(vec![entry(1, Some(2), 2), entry(3, Some(4), 3), entry(5, None, 4)]);
    press(&mut app, Key::Char('e'), 9);
    press(&mut app, Key::Enter, 9);
    assert_eq!(table(&app).0.list_state.selected, Some(2));
    assert_eq!(table(&app).0.input, entry(5, None, 4));
    assert_eq!(app.mode(), Mode::EditEntry);
}

#[test]
fn typing_an_entry_moves_the_cursor() {
    let mut app = app_with(vec![entry(1, Some(2), 2), entry(5, None, 4)]);
    press(&mut app, Key::Char('e'), 9);
    press(&mut app, Key::Enter, 9);
    // The category.
    assert_eq!(press(&mut app, Key::Char('7'), 9), KeyEffect::Nothing);
    assert_eq!((table(&app).0.input.number, table(&app).1), (7, 1));
    // A running entry: the cursor stops on the first place of the end.
    for expected in [2, 3, 4, 5, 6, 7, 7] {
        press(&mut app, Key::Right, 9);
        assert_eq!(table(&app).1, expected);
    }
    // Space there ends the entry as of now.
    assert_eq!(press(&mut app, Key::Char(' '), 77), KeyEffect::Nothing);
    assert_eq!(table(&app).0.input.end, Some(at(77)));
    assert_eq!(table(&app).1, 8);
    for expected in [9, 10, 11, 12, 12] {
        press(&mut app, Key::Char(' '), 9);
        assert_eq!(table(&app).1, expected);
    }
    // Backspace on the last entry makes it run on.
    press(&mut app, Key::Backspace, 9);
    assert_eq!(table(&app).0.input.end, None);
    assert_eq!(table(&app).1, 12);
    for expected in [11, 10, 9, 8, 7, 6, 5, 4, 3, 2, 1, 0, 0] {
        press(&mut app, Key::Left, 9);
        assert_eq!(table(&app).1, expected);
    }
    // Enter writes the entry over the row and over today's.
    assert_eq!(press(&mut app, Key::Enter, 9), KeyEffect::SaveLog);
    assert_eq!(app.today, vec![entry(1, Some(2), 2), entry(5, None, 7)]);
    assert_eq!(table(&app).0.options, app.today);
    assert_eq!(table(&app).1, 0);
    assert_eq!(app.mode(), Mode::PickEntry);
}

#[test]
fn backspace_on_an_earlier_entry_moves_back_or_complains() {
    let mut app = app_with(vec![entry(1, Some(2), 2), entry(5, None, 4)]);
    press(&mut app, Key::Char('e'), 9);
    press(&mut app, Key::Down, 9);
    press(&mut app, Key::Enter, 9);
    assert_eq!(table(&app).0.list_state.selected, Some(0));
    press(&mut app, Key::Right, 9);
    press(&mut app, Key::Backspace, 9);
    assert_eq!(table(&app).1, 0);
    assert_eq!(table(&app).0.input.end, Some(at(2)));
    assert!(app.message.is_none());
    press(&mut app, Key::Backspace, 33);
    assert_eq!(app.message.as_ref().unwrap().0, "Only the final entry can be ongoing");
    assert_eq!(app.message.as_ref().unwrap().1, at(33));
    assert_eq!(table(&app).0.input.end, Some(at(2)));
}

#[test]
fn digits_change_the_times_of_an_entry() {
    let start = chrono::Local.with_ymd_and_hms(2023, 5, 5, 12, 34, 56).unwrap();
    let stamp = Timestamp::new(start.timestamp(), 0);
    let mut app = app_with(vec![TimeLog { start: stamp, end: None, number: 4 }]);
    press(&mut app, Key::Char('e'), 9);
    press(&mut app, Key::Enter, 9);
    press(&mut app, Key::Right, 9);
    // Nothing came of the change: nothing moves.
    assert_eq!(app.typing_target(Key::Char('3'), at(9)), Some((stamp, 1, '3')));
    assert_eq!(press(&mut app, Key::Char('3'), 9), KeyEffect::Nothing);
    assert_eq!((table(&app).0.input.start, table(&app).1), (stamp, 1));
    // Through the clock.
    assert_eq!(app.handle_key(Key::Char('2')), Some(KeyEffect::Nothing));
    let typed = table(&app).0.input.start;
    let shown = chrono::DateTime::from_timestamp(typed.secs, typed.nanos)
        .unwrap()
        .with_timezone(&chrono::Local);
    assert_eq!((shown.hour(), shown.minute(), shown.second()), (22, 34, 56));
    assert_eq!(table(&app).1, 2);
    assert_eq!(app.handle_key(Key::Char('x')), Some(KeyEffect::Nothing));
    assert_eq!(table(&app).1, 2);
    // A digit on the end of a running entry ends it, as of now at the least.
    for _ in 0..5 {
        press(&mut app, Key::Right, 9);
    }
    assert_eq!(table(&app).1, 7);
    assert_eq!(app.typing_target(Key::Char('1'), at(9)), Some((at(9), 1, '1')));
    assert_eq!(app.apply_key(Key::Char('9'), at(1234), None), KeyEffect::Nothing);
    assert_eq!((table(&app).0.input.end, table(&app).1), (Some(at(1234)), 7));
    assert_eq!(app.apply_key(Key::Char('1'), at(1234), Some(at(5000))), KeyEffect::Nothing);
    assert_eq!((table(&app).0.input.end, table(&app).1), (Some(at(5000)), 8));
    assert_eq!(app.typing_target(Key::Char('1'), at(9)), Some((at(5000), 2, '1')));
    assert_eq!(app.typing_target(Key::Char('a'), at(9)), None);
    assert_eq!(app.typing_target(Key::Enter, at(9)), None);
}

#[test]
fn keys_that_cannot_be_answered_are_refused() {
    // The entries have changed under the table.
    let mut app = app_with(vec![entry(1, Some(2), 2), entry(5, None, 4)]);
    press(&mut app, Key::Char('e'), 9);
    press(&mut app, Key::Enter, 9);
    app.today.clear();
    assert!(!app.accepts_key(Key::Enter, at(9)));
    assert_eq!(app.handle_key(Key::Enter), None);
    assert_eq!(app.mode(), Mode::EditEntry);
    press(&mut app, Key::Esc, 9);
    press(&mut app, Key::Char('d'), 9);
    assert!(!app.accepts_key(Key::Char('x'), at(9)));
    // A cursor that has been put outside the entry.
    let mut app = app_with(vec![entry(1, Some(2), 2)]);
    press(&mut app, Key::Char('e'), 9);
    press(&mut app, Key::Enter, 9);
    if let Page::Home(State::Editing { cursor_pos, .. }) = &mut app.selected_page {
        *cursor_pos = 13;
    }
    assert!(!app.accepts_key(Key::Char('1'), at(9)));
    assert!(app.accepts_key(Key::Char('a'), at(9)));
    // No second before the first there is.
    let mut app = App::default();
    press(&mut app, Key::Char('e'), 9);
    assert!(!app.accepts_key(Key::Char('i'), at(i64::MIN)));
    assert!(app.accepts_key(Key::Char('i'), at(i64::MIN + 1)));
    // A label for a ninth place.
    let mut app = App::default();
    press(&mut app, Key::Char('s'), 1);
    if let Page::Settings(list) = &mut app.selected_page {
        list.options.push(String::new());
        list.list_state.selected = Some(8);
    }
    press(&mut app, Key::Enter, 1);
    assert!(!app.accepts_key(Key::Enter, at(1)));
}

#[test]
fn handle_key_reads_the_clock() {
    let mut app = App::default();
    assert_eq!(app.handle_key(Key::Char('2')), Some(KeyEffect::Nothing));
    assert_eq!(app.today.len(), 1);
    assert!(app.today[0].start.secs > 1_600_000_000);
    assert_eq!(app.handle_key(Key::Char('q')), Some(KeyEffect::Quit));
}

#[test]
fn autosave_comes_every_three_hundred_rounds() {
    let mut ticker = Ticker::new();
    for round in 0..1000 {
        let expected = if round % 301 == 300 { Tick::Autosave } else { Tick::Idle };
        assert_eq!(ticker.tick(), expected);
    }
}

#[test]
fn autosave_rolls_a_running_entry_over_midnight() {
    let mut app = app_with(vec![entry(100, Some(200), 1), entry(300, None, 5)]);
    let carried = app.begin_autosave_at(at(900), true, at(500));
    assert_eq!(carried, Some(entry(300, None, 5)));
    assert_eq!(app.today, vec![entry(100, Some(200), 1), entry(300, Some(500), 5)]);
    assert_eq!(app.message.as_ref().unwrap().0, "Autosaving...");
    assert_eq!(app.message.as_ref().unwrap().1, at(900));
    app.finish_autosave_at(true, carried, at(501));
    assert_eq!(app.today, vec![entry(501, None, 5)]);

    // Nothing running: the new day starts empty.
    let mut app = app_with(vec![entry(100, Some(200), 1)]);
    let carried = app.begin_autosave_at(at(900), true, at(500));
    assert_eq!(carried, None);
    app.finish_autosave_at(true, carried, at(501));
    assert_eq!(app.today, vec![]);

    // The same day: nothing changes but the status line.
    let mut app = app_with(vec![entry(100, Some(200), 1), entry(300, None, 5)]);
    let carried = app.begin_autosave_at(at(900), false, at(500));
    assert_eq!(carried, None);
    app.finish_autosave_at(false, carried, at(501));
    assert_eq!(app.today, vec![entry(100, Some(200), 1), entry(300, None, 5)]);
}

#[test]
fn autosave_through_the_clock() {
    let yesterday = chrono::Local::now() - chrono::Duration::days(1);
    let began = Timestamp::new(yesterday.timestamp(), 5);
    let mut app = app_with(vec![TimeLog { start: began, end: None, number: 3 }]);
    let (turned, carried) = app.begin_autosave().unwrap();
    assert!(turned);
    assert_eq!(carried, Some(TimeLog { start: began, end: None, number: 3 }));
    let ended = app.today[0].end.unwrap();
    assert_eq!(Some(ended), end_of_day(&began));
    let shown = chrono::DateTime::from_timestamp(ended.secs, ended.nanos)
        .unwrap()
        .with_timezone(&chrono::Local);
    assert_eq!(shown.date_naive(), yesterday.date_naive());
    assert_eq!((shown.hour(), shown.minute(), shown.second()), (23, 59, 59));
    assert_eq!(shown.nanosecond(), 999_999_999);
    assert!(app.finish_autosave(turned, carried));
    assert_eq!(app.today.len(), 1);
    assert_eq!((app.today[0].number, app.today[0].end), (3, None));
    let starts = app.today[0].start;
    let shown = chrono::DateTime::from_timestamp(starts.secs, starts.nanos)
        .unwrap()
        .with_timezone(&chrono::Local);
    assert_eq!((shown.hour(), shown.minute(), shown.second(), shown.nanosecond()), (0, 0, 0, 0));
    assert_eq!(shown.date_naive(), chrono::Local::now().date_naive());

    let mut app = app_with(vec![TimeLog { start: starts, end: None, number: 3 }]);
    assert_eq!(app.begin_autosave(), Some((false, None)));
    assert!(app.finish_autosave(false, None));
    assert_eq!(app.today.len(), 1);
    let mut app = App::default();
    assert_eq!(app.begin_autosave(), Some((false, None)));

    // With nothing to carry over a turned day leaves no entries behind.
    let mut app = app_with(vec![entry(100, Some(200), 1)]);
    assert!(app.finish_autosave(true, None));
    assert_eq!(app.today, vec![]);
    // Nothing running: the autosave begins whatever the calendar says.
    let mut app = app_with(vec![entry(100, Some(200), 1)]);
    let (turned, carried) = app.begin_autosave().unwrap();
    assert!(turned);
    assert_eq!(carried, None);
    assert_eq!(app.today, vec![entry(100, Some(200), 1)]);
    assert_eq!(app.message.as_ref().unwrap().0, "Autosaving...");
}

#[test]
fn autosave_at_the_ends_of_time() {
    // The first and the last second that there are, and the seconds beyond.
    for secs in [8_210_266_876_799, -8_334_601_315_200, i64::MAX, i64::MIN, 0] {
        for end in [None, Some(secs)] {
            let mut app = app_with(vec![entry(secs, end, 2)]);
            let before = app.today.clone();
            match app.begin_autosave() {
                Some((turned, carried)) => {
                    assert_eq!(carried.is_some(), turned && end.is_none());
                    assert_eq!(app.message.as_ref().unwrap().0, "Autosaving...");
                }
                None => {
                    assert_eq!(end, None);
                    assert_eq!(app.today, before);
                    assert!(app.message.is_none());
                }
            }
        }
    }
}

#[test]
fn new_day_needs_entries_from_another_day() {
    let monday = Date::new(2024, 3, 4).unwrap();
    let tuesday = Date::new(2024, 3, 5).unwrap();
    assert!(!is_new_day(None, monday));
    assert!(!is_new_day(Some(monday), monday));
    assert!(is_new_day(Some(monday), tuesday));
    assert!(is_new_day(Some(tuesday), monday));
    assert!(is_new_day(Some(Date::new(2023, 3, 4).unwrap()), monday));
    assert!(is_new_day(Some(Date::new(2024, 4, 4).unwrap()), monday));
    assert_eq!(nanosecond_before(Timestamp::new(5, 7)), Some(Timestamp::new(5, 6)));
    assert_eq!(nanosecond_before(Timestamp::new(5, 0)), Some(Timestamp::new(4, 999_999_999)));
    assert_eq!(nanosecond_before(Timestamp::new(i64::MIN, 0)), None);
}

#[test]
fn status_line_is_taken_down_after_ten_seconds() {
    let mut app = App::default();
    app.expire_message_at(at(100));
    assert!(app.message.is_none());
    app.set_connected_at(true, at(100));
    app.expire_message_at(at(110));
    assert!(app.message.is_some());
    app.expire_message_at(Timestamp::new(110, 1));
    assert!(app.message.is_none());
    app.set_connected_at(true, at(i64::MIN));
    app.expire_message_at(at(i64::MAX));
    assert!(app.message.is_none());
    app.set_connected_at(true, at(i64::MAX));
    app.expire_message_at(at(i64::MIN));
    assert!(app.message.is_some());
}

#[test]
fn leaving_ends_the_running_entry() {
    let mut app = app_with(vec![entry(1, None, 2)]);
    app.begin_quit_at(at(9));
    assert_eq!(app.today, vec![entry(1, Some(9), 2)]);
    assert_eq!(app.message.as_ref().unwrap().0, "Saving time log...");
    app.announce_exit_at(at(10));
    assert_eq!(app.message.as_ref().unwrap().0, "Disconnecting Bluetooth and exiting...");
    assert_eq!(app.message.as_ref().unwrap().1, at(10));
    assert_eq!(app.today, vec![entry(1, Some(9), 2)]);
}
