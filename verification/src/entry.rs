//! One logged stretch of time, and the label of its category.

use crate::clock::now;
use crate::clock::Timestamp;
use crate::text::decimal;
use crate::text::u8_to_string;
use vstd::prelude::*;

verus! {

/// Whether `number` names one of the eight categories, which are also the
/// eight faces of the tracker.
pub open spec fn is_side(number: u8) -> bool {
    1 <= number <= 8
}

/// A stretch of time logged against category `number`; it is still running
/// while `end` is empty.
#[derive(Clone, Copy, Debug, PartialEq, Eq, Structural)]
pub struct TimeLog {
    pub start: Timestamp,
    pub end: Option<Timestamp>,
    pub number: u8,
}

impl Default for TimeLog {
    /// An entry for the first category that starts at the moment of the
    /// call and is still running.
    fn default() -> (entry: TimeLog)
        ensures
            entry.end.is_none(),
            entry.number == 1,
    {
        TimeLog { start: now(), end: None, number: 1 }
    }
}

impl TimeLog {
    pub open spec fn spec_is_open(&self) -> bool {
        self.end.is_none()
    }

    /// Whether the entry is still running.
    #[verifier::when_used_as_spec(spec_is_open)]
    pub fn is_open(&self) -> (open: bool)
        ensures
            open == self.end.is_none(),
    {
        self.end.is_none()
    }

    /// The entry as it is once it has ended at `at`.
    pub open spec fn closed_at(self, at: Timestamp) -> TimeLog {
        TimeLog { end: Some(at), ..self }
    }
}

/// The text that the user chose for category `number`: the label in that
/// place, unless there are no labels, the number names no category, or
/// the label is empty.
pub open spec fn pref_label(number: u8, labels: Option<&[String; 8]>) -> Option<Seq<char>> {
    match labels {
        Some(all) => if is_side(number) && all@[number - 1]@.len() > 0 {
            Some(all@[number - 1]@)
        } else {
            None
        },
        None => None,
    }
}

/// What category `number` is called: the label that the user chose for
/// it, or else the number itself.
pub open spec fn label_text(number: u8, labels: Option<&[String; 8]>) -> Seq<char> {
    match pref_label(number, labels) {
        Some(text) => text,
        None => decimal(number as int),
    }
}

impl TimeLog {
    /// What the category of the entry is called: the user's label for it,
    /// or else its number.
    pub fn resolve_label(&self, labels: Option<&[String; 8]>) -> (label: String)
        ensures
            label@ == label_text(self.number, labels),
    {
        match get_pref_label(self.number, labels) {
            Some(label) => label,
            None => u8_to_string(self.number),
        }
    }
}

/// The user's label for category `number`, if a non-empty one is set.
pub fn get_pref_label(number: u8, labels: Option<&[String; 8]>) -> (label: Option<String>)
    ensures
        match pref_label(number, labels) {
            Some(text) => label.is_some() && label.unwrap()@ == text,
            None => label.is_none(),
        },
{
    match labels {
        Some(all) => {
            if 1 <= number && number <= 8 {
                let label: &String = &all[(number - 1) as usize];
                if label.as_str().is_empty() {
                    None
                } else {
                    Some(label.clone())
                }
            } else {
                None
            }
        },
        None => None,
    }
}

} // verus!
