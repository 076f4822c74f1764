//! A list of items with a highlighted row and a scratch item that is edited
//! in place of the highlighted one.

use crate::entry::TimeLog;
use vstd::prelude::*;

verus! {

/// What a list widget remembers between frames, as far as editing cares:
/// which row is highlighted.
pub trait TuiState {
    /// The highlighted row, if there is one.
    spec fn selection(&self) -> Option<usize>;

    fn selected(&self) -> (index: Option<usize>)
        ensures
            index == self.selection(),
    ;

    fn select(&mut self, index: Option<usize>)
        ensures
            final(self).selection() == index,
    ;
}

/// The state of a plain list: the highlighted row and the first row shown.
#[derive(Debug, Clone, Copy, PartialEq, Eq, Structural)]
pub struct ListState {
    pub offset: usize,
    pub selected: Option<usize>,
}

/// The state of a table: the highlighted row and the first row shown.
#[derive(Debug, Clone, Copy, PartialEq, Eq, Structural)]
pub struct TableState {
    pub offset: usize,
    pub selected: Option<usize>,
}

impl Default for ListState {
    fn default() -> (state: ListState)
        ensures
            state.offset == 0,
            state.selected.is_none(),
    {
        ListState { offset: 0, selected: None }
    }
}

impl Default for TableState {
    fn default() -> (state: TableState)
        ensures
            state.offset == 0,
            state.selected.is_none(),
    {
        TableState { offset: 0, selected: None }
    }
}

impl TuiState for ListState {
    open spec fn selection(&self) -> Option<usize> {
        self.selected
    }

    fn selected(&self) -> (index: Option<usize>) {
        self.selected
    }

    /// Highlights `index`; with nothing highlighted the list scrolls back to
    /// its first row.
    fn select(&mut self, index: Option<usize>)
        ensures
            final(self).offset == (if index.is_none() { 0 } else { old(self).offset }),
    {
        self.selected = index;
        if index.is_none() {
            self.offset = 0;
        }
    }
}

impl TuiState for TableState {
    open spec fn selection(&self) -> Option<usize> {
        self.selected
    }

    fn selected(&self) -> (index: Option<usize>) {
        self.selected
    }

    /// Highlights `index`; with nothing highlighted the table scrolls back to
    /// its first row.
    fn select(&mut self, index: Option<usize>)
        ensures
            final(self).offset == (if index.is_none() { 0 } else { old(self).offset }),
    {
        self.selected = index;
        if index.is_none() {
            self.offset = 0;
        }
    }
}

/// The items of a list, the row highlighted in it, and the item being typed
/// while `editing` is on.
#[derive(Debug)]
pub struct EditableList<StateType: TuiState, T: Clone + Default + core::fmt::Debug = String> {
    pub options: Vec<T>,
    pub input: T,
    pub editing: bool,
    pub list_state: StateType,
    pub caps_lock: bool,
}

impl<StateType: TuiState + Default, T: Clone + Default + core::fmt::Debug> EditableList<
    StateType,
    T,
> {
    /// A list over `options`, not editing, with a default scratch item and a
    /// default widget state.
    pub fn new(options: Vec<T>) -> (list: Self)
        ensures
            list.options == options,
            !list.editing,
            !list.caps_lock,
            call_ensures(T::default, (), list.input),
            call_ensures(StateType::default, (), list.list_state),
    {
        Self {
            options,
            caps_lock: false,
            editing: false,
            input: T::default(),
            list_state: StateType::default(),
        }
    }
}

impl<StateType: TuiState, T: Clone + Default + core::fmt::Debug> EditableList<StateType, T> {
    /// The row that counts as current when moving up: the highlighted one,
    /// or the first.
    pub open spec fn cursor_or_first(&self) -> int {
        match self.list_state.selection() {
            Some(i) => i as int,
            None => 0,
        }
    }

    /// The row that counts as current when moving down: the highlighted
    /// one, or the last.
    pub open spec fn cursor_or_last(&self) -> int {
        match self.list_state.selection() {
            Some(i) => i as int,
            None => self.options@.len() - 1,
        }
    }

    /// The row above `row`, wrapping from the first row to the last.
    pub open spec fn row_above(&self, row: int) -> int {
        if row == 0 {
            self.options@.len() - 1
        } else {
            row - 1
        }
    }

    /// The row below `row`, wrapping from the last row to the first.
    pub open spec fn row_below(&self, row: int) -> int {
        if row == self.options@.len() - 1 {
            0
        } else {
            row + 1
        }
    }

    /// Everything but the widget state is as in `other`.
    pub open spec fn same_items_and_mode(&self, other: &Self) -> bool {
        &&& self.options == other.options
        &&& self.input == other.input
        &&& self.editing == other.editing
        &&& self.caps_lock == other.caps_lock
    }

    /// Moves the highlight one row up, from the first row to the last.
    pub fn select_prev(&mut self)
        requires
            old(self).cursor_or_first() == 0 ==> old(self).options@.len() > 0,
        ensures
            final(self).list_state.selection() == Some(
                old(self).row_above(old(self).cursor_or_first()) as usize,
            ),
            final(self).same_items_and_mode(old(self)),
    {
        let current: usize = match self.list_state.selected() {
            Some(i) => i,
            None => 0,
        };
        let prev: usize = if current == 0 {
            self.options.len() - 1
        } else {
            current - 1
        };
        self.list_state.select(Some(prev));
    }

    /// Moves the highlight one row down, from the last row to the first.
    pub fn select_next(&mut self)
        requires
            old(self).options@.len() > 0,
            old(self).cursor_or_last() < usize::MAX,
        ensures
            final(self).list_state.selection() == Some(
                old(self).row_below(old(self).cursor_or_last()) as usize,
            ),
            final(self).same_items_and_mode(old(self)),
    {
        let last: usize = self.options.len() - 1;
        let current: usize = match self.list_state.selected() {
            Some(i) => i,
            None => last,
        };
        let next: usize = if current == last {
            0
        } else {
            current + 1
        };
        self.list_state.select(Some(next));
    }

    /// Whether the last row is highlighted; with no highlight the answer is
    /// yes.
    pub fn selected_is_last(&self) -> (last: bool)
        requires
            self.list_state.selection().is_some() ==> self.options@.len() > 0,
        ensures
            last == match self.list_state.selection() {
                Some(i) => i == self.options@.len() - 1,
                None => true,
            },
    {
        match self.list_state.selected() {
            Some(cur) => cur == self.options.len() - 1,
            None => true,
        }
    }

    /// The row that editing starts on: the highlighted one, else
    /// `default_item`, else the first.
    pub open spec fn row_to_edit(&self, default_item: Option<usize>) -> usize {
        match self.list_state.selection() {
            Some(i) => i,
            None => match default_item {
                Some(d) => d,
                None => 0,
            },
        }
    }

    /// Turns editing on. With no row highlighted, `default_item` (or the
    /// first row) is highlighted first. The scratch item becomes a clone of
    /// the highlighted one.
    pub fn start_editing(&mut self, default_item: Option<usize>)
        requires
            old(self).row_to_edit(default_item) < old(self).options@.len(),
        ensures
            final(self).editing,
            final(self).list_state.selection() == Some(old(self).row_to_edit(default_item)),
            cloned(
                old(self).options@[old(self).row_to_edit(default_item) as int],
                final(self).input,
            ),
            final(self).options == old(self).options,
            final(self).caps_lock == old(self).caps_lock,
    {
        self.editing = true;
        if self.list_state.selected().is_none() {
            let fallback: usize = match default_item {
                Some(d) => d,
                None => 0,
            };
            self.list_state.select(Some(fallback));
        }
        let selected: usize = self.list_state.selected().unwrap();
        self.input = self.options[selected].clone();
    }

    /// Ends editing and writes the scratch item over the highlighted row.
    /// Returns that row and the item; the scratch item is reset to a
    /// default.
    pub fn save_edit(&mut self) -> (saved: (usize, T))
        requires
            old(self).list_state.selection().is_some(),
            old(self).list_state.selection().unwrap() < old(self).options@.len(),
        ensures
            !final(self).editing,
            call_ensures(T::default, (), final(self).input),
            saved.0 == old(self).list_state.selection().unwrap(),
            saved.1 == old(self).input,
            final(self).options@.len() == old(self).options@.len(),
            cloned(saved.1, final(self).options@[saved.0 as int]),
            final(self).options@ == old(self).options@.update(
                saved.0 as int,
                final(self).options@[saved.0 as int],
            ),
            final(self).list_state == old(self).list_state,
            final(self).caps_lock == old(self).caps_lock,
    {
        self.editing = false;
        let mut new_val: T = T::default();
        core::mem::swap(&mut self.input, &mut new_val);
        let edited_idx: usize = self.list_state.selected().unwrap();
        let copy: T = new_val.clone();
        self.options.set(edited_idx, copy);
        (edited_idx, new_val)
    }

    /// Removes the highlighted row, if any, and returns where it was. The
    /// highlight moves to the row above, or goes away when the first row
    /// was removed; the scratch item is reset to a default.
    pub fn delete_selected(&mut self) -> (deleted: Option<usize>)
        requires
            old(self).list_state.selection().is_some() ==> old(
                self,
            ).list_state.selection().unwrap() < old(self).options@.len(),
        ensures
            deleted == old(self).list_state.selection(),
            final(self).editing == old(self).editing,
            final(self).caps_lock == old(self).caps_lock,
            match deleted {
                Some(i) => {
                    &&& final(self).options@ == old(self).options@.remove(i as int)
                    &&& final(self).list_state.selection() == (if i > 0 {
                        Some((i - 1) as usize)
                    } else {
                        None
                    })
                    &&& call_ensures(T::default, (), final(self).input)
                },
                None => *final(self) == *old(self),
            },
    {
        match self.list_state.selected() {
            Some(edited_idx) => {
                self.input = T::default();
                let _old_val: T = self.options.remove(edited_idx);
                self.list_state.select(
                    if edited_idx > 0 {
                        Some(edited_idx - 1)
                    } else {
                        None
                    },
                );
                Some(edited_idx)
            },
            None => None,
        }
    }

    /// Puts `new_item` in at the highlighted row, moving that row and those
    /// below it down by one; with no highlight it goes in first. Returns
    /// the new item's row. The highlight itself stays where it was.
    pub fn insert_at_selection(&mut self, new_item: T) -> (index: usize)
        requires
            old(self).cursor_or_first() <= old(self).options@.len(),
        ensures
            index == old(self).cursor_or_first(),
            final(self).options@ == old(self).options@.insert(index as int, new_item),
            final(self).input == old(self).input,
            final(self).editing == old(self).editing,
            final(self).caps_lock == old(self).caps_lock,
            final(self).list_state == old(self).list_state,
    {
        let idx: usize = match self.list_state.selected() {
            Some(i) => i,
            None => 0,
        };
        self.options.insert(idx, new_item);
        idx
    }

    /// Like `insert_at_selection`, with a default item. Returns the new
    /// row and the item that a clone of went in.
    pub fn insert_default_at_selection(&mut self) -> (inserted: (usize, T))
        requires
            old(self).cursor_or_first() <= old(self).options@.len(),
        ensures
            inserted.0 == old(self).cursor_or_first(),
            call_ensures(T::default, (), inserted.1),
            final(self).options@.len() == old(self).options@.len() + 1,
            cloned(inserted.1, final(self).options@[inserted.0 as int]),
            final(self).options@ == old(self).options@.insert(
                inserted.0 as int,
                final(self).options@[inserted.0 as int],
            ),
            final(self).input == old(self).input,
            final(self).editing == old(self).editing,
            final(self).caps_lock == old(self).caps_lock,
            final(self).list_state == old(self).list_state,
    {
        let new_val: T = T::default();
        let copy: T = new_val.clone();
        let new_idx: usize = self.insert_at_selection(copy);
        (new_idx, new_val)
    }

    /// Whether `seed` is what the maker of a new item may be shown: nothing
    /// when no row is highlighted, else a clone of the highlighted item.
    pub open spec fn is_seed(&self, seed: Option<T>) -> bool {
        match self.list_state.selection() {
            Some(i) => seed.is_some() && cloned(self.options@[i as int], seed.unwrap()),
            None => seed.is_none(),
        }
    }

    /// Like `insert_at_selection`, with an item that `f` makes from a clone
    /// of the highlighted one. Returns the new row and the item that a
    /// clone of went in.
    pub fn insert_at_selection_with<F>(&mut self, f: F) -> (inserted: (usize, T)) where
        F: FnOnce(Option<T>) -> T,

        requires
            old(self).list_state.selection().is_some() ==> old(
                self,
            ).list_state.selection().unwrap() < old(self).options@.len(),
            forall|seed: Option<T>| old(self).is_seed(seed) ==> call_requires(f, (seed,)),
        ensures
            inserted.0 == old(self).cursor_or_first(),
            exists|seed: Option<T>|
                old(self).is_seed(seed) && call_ensures(f, (seed,), inserted.1),
            final(self).options@.len() == old(self).options@.len() + 1,
            cloned(inserted.1, final(self).options@[inserted.0 as int]),
            final(self).options@ == old(self).options@.insert(
                inserted.0 as int,
                final(self).options@[inserted.0 as int],
            ),
            final(self).input == old(self).input,
            final(self).editing == old(self).editing,
            final(self).caps_lock == old(self).caps_lock,
            final(self).list_state == old(self).list_state,
    {
        let old_val: Option<T> = match self.list_state.selected() {
            Some(idx) => Some(self.options[idx].clone()),
            None => None,
        };
        let ghost seed = old_val;
        assert(self.is_seed(seed));
        let new_val: T = f(old_val);
        let copy: T = new_val.clone();
        let new_idx: usize = self.insert_at_selection(copy);
        (new_idx, new_val)
    }
}

/// A list as plain values: its items, the scratch item and the highlighted
/// row. Where the widget has scrolled to is no part of it.
pub struct ListView<V> {
    pub options: Seq<V>,
    pub input: V,
    pub editing: bool,
    pub selected: Option<usize>,
    pub caps_lock: bool,
}

impl<V> ListView<V> {
    /// A list over `options` at rest, with `input` as its scratch item.
    pub open spec fn fresh(options: Seq<V>, input: V) -> ListView<V> {
        ListView { options, input, editing: false, selected: None, caps_lock: false }
    }

    /// The row that counts as current when moving up or inserting: the
    /// highlighted one, or the first.
    pub open spec fn cursor_or_first(self) -> int {
        match self.selected {
            Some(i) => i as int,
            None => 0,
        }
    }

    /// Whether the highlight can move up.
    pub open spec fn can_select_prev(self) -> bool {
        self.cursor_or_first() == 0 ==> self.options.len() > 0
    }

    /// The list with the highlight one row up, from the first row to the
    /// last.
    pub open spec fn select_prev(self) -> ListView<V> {
        ListView {
            selected: Some(
                (if self.cursor_or_first() == 0 {
                    self.options.len() - 1
                } else {
                    self.cursor_or_first() - 1
                }) as usize,
            ),
            ..self
        }
    }

    /// Whether the highlight can move down.
    pub open spec fn can_select_next(self) -> bool {
        self.options.len() > 0 && (self.selected matches Some(i) ==> i < usize::MAX)
    }

    /// The list with the highlight one row down, from the last row to the
    /// first; with no highlight the last row counts as current.
    pub open spec fn select_next(self) -> ListView<V> {
        let current = match self.selected {
            Some(i) => i as int,
            None => self.options.len() - 1,
        };
        ListView {
            selected: Some(
                (if current == self.options.len() - 1 {
                    0
                } else {
                    current + 1
                }) as usize,
            ),
            ..self
        }
    }

    /// Whether the last row is highlighted; yes with no highlight.
    pub open spec fn selected_is_last(self) -> bool {
        match self.selected {
            Some(i) => i == self.options.len() - 1,
            None => true,
        }
    }

    /// The row that editing starts on.
    pub open spec fn row_to_edit(self, default_item: Option<usize>) -> usize {
        match self.selected {
            Some(i) => i,
            None => match default_item {
                Some(d) => d,
                None => 0,
            },
        }
    }

    /// The list with editing on, for the row that `row_to_edit` gives.
    pub open spec fn start_editing(self, default_item: Option<usize>) -> ListView<V> {
        ListView {
            editing: true,
            selected: Some(self.row_to_edit(default_item)),
            input: self.options[self.row_to_edit(default_item) as int],
            ..self
        }
    }

    /// Whether a row is highlighted that the list has.
    pub open spec fn has_selected_row(self) -> bool {
        self.selected matches Some(i) && i < self.options.len()
    }

    /// The list with the scratch item written over the highlighted row,
    /// editing off and `fresh` as the new scratch item.
    pub open spec fn save_edit(self, fresh: V) -> ListView<V> {
        ListView {
            editing: false,
            input: fresh,
            options: self.options.update(self.selected.unwrap() as int, self.input),
            ..self
        }
    }

    /// The list without its highlighted row, the highlight one row up or
    /// gone, and `fresh` as the new scratch item; the list itself with no
    /// highlight.
    pub open spec fn delete_selected(self, fresh: V) -> ListView<V> {
        match self.selected {
            Some(i) => ListView {
                input: fresh,
                options: self.options.remove(i as int),
                selected: if i > 0 {
                    Some((i - 1) as usize)
                } else {
                    None
                },
                ..self
            },
            None => self,
        }
    }

    /// The list with `item` put in at the highlighted row, or first.
    pub open spec fn insert_at_selection(self, item: V) -> ListView<V> {
        ListView { options: self.options.insert(self.cursor_or_first(), item), ..self }
    }
}

/// The texts of `items`.
pub open spec fn texts(items: Seq<String>) -> Seq<Seq<char>> {
    items.map_values(|s: String| s@)
}

impl View for EditableList<ListState, String> {
    type V = ListView<Seq<char>>;

    open spec fn view(&self) -> ListView<Seq<char>> {
        ListView {
            options: texts(self.options@),
            input: self.input@,
            editing: self.editing,
            selected: self.list_state.selected,
            caps_lock: self.caps_lock,
        }
    }
}

impl View for EditableList<TableState, TimeLog> {
    type V = ListView<TimeLog>;

    open spec fn view(&self) -> ListView<TimeLog> {
        ListView {
            options: self.options@,
            input: self.input,
            editing: self.editing,
            selected: self.list_state.selected,
            caps_lock: self.caps_lock,
        }
    }
}

} // verus!
