use ydnc_time::clock::Timestamp;
use ydnc_time::entry::TimeLog;
use ydnc_time::ui::editable_list::EditableList;
use ydnc_time::ui::editable_list::ListState;
use ydnc_time::ui::editable_list::TableState;
use ydnc_time::ui::editable_list::TuiState;
use ydnc_time::ui::home::State;
use ydnc_time::ui::Page;

fn words(items: &[&str]) -> Vec<String> {
    items.iter().map(|s| s.to_string()).collect()
}

fn list(items: &[&str]) -> EditableList<ListState, String> {
    EditableList::new(words(items))
}

#[test]
fn new_list_is_at_rest() {
    let l = list(&["a", "b"]);
    assert_eq!(l.options, words(&["a", "b"]));
    assert_eq!(l.input, "");
    assert!(!l.editing);
    assert!(!l.caps_lock);
    assert_eq!(l.list_state.selected(), None);
    assert_eq!(l.list_state, ListState { offset: 0, selected: None });
    assert_eq!(ListState::default(), ListState { offset: 0, selected: None });
    assert_eq!(TableState::default(), TableState { offset: 0, selected: None });
}

#[test]
fn widget_state_select_resets_scroll_only_when_cleared() {
    let mut s = ListState { offset: 4, selected: None };
    s.select(Some(6));
    assert_eq!(s, ListState { offset: 4, selected: Some(6) });
    assert_eq!(s.selected(), Some(6));
    s.select(None);
    assert_eq!(s, ListState { offset: 0, selected: None });
    let mut t = TableState { offset: 4, selected: Some(1) };
    t.select(Some(2));
    assert_eq!(t, TableState { offset: 4, selected: Some(2) });
    t.select(None);
    assert_eq!(t, TableState { offset: 0, selected: None });
    // The widget of the terminal library behaves the same.
    let mut theirs = ratatui::widgets::ListState::default().with_offset(4);
    theirs.select(Some(6));
    assert_eq!((theirs.offset(), theirs.selected()), (4, Some(6)));
    theirs.select(None);
    assert_eq!((theirs.offset(), theirs.selected()), (0, None));
}

#[test]
fn select_prev_wraps_to_the_last() {
    let mut l = list(&["a", "b", "c"]);
    l.select_prev();
    assert_eq!(l.list_state.selected(), Some(2));
    l.select_prev();
    assert_eq!(l.list_state.selected(), Some(1));
    l.select_prev();
    assert_eq!(l.list_state.selected(), Some(0));
    l.select_prev();
    assert_eq!(l.list_state.selected(), Some(2));
    assert_eq!(l.options, words(&["a", "b", "c"]));
}

#[test]
fn select_next_wraps_to_the_first() {
    let mut l = list(&["a", "b", "c"]);
    // With nothing highlighted the last row counts as current.
    l.select_next();
    assert_eq!(l.list_state.selected(), Some(0));
    l.select_next();
    assert_eq!(l.list_state.selected(), Some(1));
    l.select_next();
    assert_eq!(l.list_state.selected(), Some(2));
    l.select_next();
    assert_eq!(l.list_state.selected(), Some(0));
}

#[test]
fn selected_is_last_counts_no_selection_as_last() {
    let mut l = list(&["a", "b"]);
    assert!(l.selected_is_last());
    l.list_state.select(Some(0));
    assert!(!l.selected_is_last());
    l.list_state.select(Some(1));
    assert!(l.selected_is_last());
    let empty = list(&[]);
    assert!(empty.selected_is_last());
}

#[test]
fn start_editing_takes_the_highlighted_item() {
    let mut l = list(&["a", "b", "c"]);
    l.start_editing(Some(1));
    assert!(l.editing);
    assert_eq!(l.list_state.selected(), Some(1));
    assert_eq!(l.input, "b");

    let mut l = list(&["a", "b", "c"]);
    l.start_editing(None);
    assert_eq!(l.list_state.selected(), Some(0));
    assert_eq!(l.input, "a");

    // A highlight wins over the default.
    let mut l = list(&["a", "b", "c"]);
    l.list_state.select(Some(2));
    l.start_editing(Some(0));
    assert_eq!(l.list_state.selected(), Some(2));
    assert_eq!(l.input, "c");
    assert_eq!(l.options, words(&["a", "b", "c"]));
}

#[test]
fn save_edit_writes_the_input_over_the_row() {
    let mut l = list(&["a", "b", "c"]);
    l.caps_lock = true;
    l.start_editing(Some(1));
    l.input = "B!".to_string();
    let saved = l.save_edit();
    assert_eq!(saved, (1, "B!".to_string()));
    assert_eq!(l.options, words(&["a", "B!", "c"]));
    assert_eq!(l.input, "");
    assert!(!l.editing);
    assert!(l.caps_lock);
    assert_eq!(l.list_state.selected(), Some(1));
}

#[test]
fn delete_selected_moves_the_highlight_up() {
    let mut l = list(&["a", "b", "c"]);
    assert_eq!(l.delete_selected(), None);
    assert_eq!(l.options, words(&["a", "b", "c"]));
    l.list_state.select(Some(2));
    l.input = "typed".to_string();
    assert_eq!(l.delete_selected(), Some(2));
    assert_eq!(l.options, words(&["a", "b"]));
    assert_eq!(l.list_state.selected(), Some(1));
    assert_eq!(l.input, "");
    l.list_state.select(Some(0));
    assert_eq!(l.delete_selected(), Some(0));
    assert_eq!(l.options, words(&["b"]));
    assert_eq!(l.list_state.selected(), None);
}

#[test]
fn insert_goes_in_at_the_highlight() {
    let mut l = list(&["a", "b"]);
    assert_eq!(l.insert_at_selection("x".to_string()), 0);
    assert_eq!(l.options, words(&["x", "a", "b"]));
    assert_eq!(l.list_state.selected(), None);
    l.list_state.select(Some(2));
    assert_eq!(l.insert_at_selection("y".to_string()), 2);
    assert_eq!(l.options, words(&["x", "a", "y", "b"]));
    assert_eq!(l.list_state.selected(), Some(2));
    l.list_state.select(Some(4));
    assert_eq!(l.insert_at_selection("z".to_string()), 4);
    assert_eq!(l.options, words(&["x", "a", "y", "b", "z"]));

    let mut l = list(&["a"]);
    l.list_state.select(Some(0));
    assert_eq!(l.insert_default_at_selection(), (0, String::new()));
    assert_eq!(l.options, words(&["", "a"]));
}

#[test]
fn insert_with_shows_the_highlighted_item_to_the_maker() {
    let mut l = list(&["a", "b"]);
    let made = l.insert_at_selection_with(|prev| {
        assert_eq!(prev, None);
        "first".to_string()
    });
    assert_eq!(made, (0, "first".to_string()));
    assert_eq!(l.options, words(&["first", "a", "b"]));
    l.list_state.select(Some(1));
    let made = l.insert_at_selection_with(|prev| format!("{}'", prev.unwrap()));
    assert_eq!(made, (1, "a'".to_string()));
    assert_eq!(l.options, words(&["first", "a'", "a", "b"]));
    assert_eq!(l.list_state.selected(), Some(1));
}

#[test]
fn editable_home_page_starts_clean() {
    let entries = vec![TimeLog { start: Timestamp::new(1, 0), end: None, number: 2 }];
    match State::editable(entries.clone()) {
        State::Editing { state, cursor_pos, delete_pending } => {
            assert_eq!(state.options, entries);
            assert_eq!(state.list_state, TableState { offset: 0, selected: None });
            assert!(!state.editing);
            assert_eq!(state.input.number, 1);
            assert_eq!(state.input.end, None);
            assert_eq!(cursor_pos, 0);
            assert!(!delete_pending);
        }
        State::Viewing => panic!("editing was asked for"),
    }
    assert!(matches!(State::default(), State::Viewing));
    assert!(matches!(Page::default(), Page::Home(State::Viewing)));
    let fresh = TimeLog::default();
    assert_eq!((fresh.number, fresh.end), (1, None));
    assert!(fresh.is_open());
}
