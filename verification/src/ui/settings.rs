//! The settings page: the eight category labels.

use crate::ui::editable_list::EditableList;
use crate::ui::editable_list::ListState;
use vstd::prelude::*;

verus! {

/// The labels as a list that can be edited row by row.
pub type State = EditableList<ListState, String>;

} // verus!
