//! The records the report is computed from.
use vstd::prelude::*;

verus! {

/// One logged work interval. `start` and `stop` are canonical timestamps
/// ("YYYY-MM-DD HH:MM:SS"); `week_day` is the label ("Sun" .. "Sat") of the day of `start`.
#[derive(Clone, Debug, PartialEq, Eq)]
pub struct Entry {
    pub id: Option<i32>,
    pub start: String,
    pub stop: String,
    pub week_day: String,
    pub code: String,
    pub memo: String,
}

/// An interval not yet stored, so without an identifier.
#[derive(Clone, Debug, PartialEq, Eq)]
pub struct NewEntry {
    pub start: String,
    pub stop: String,
    pub week_day: String,
    pub code: String,
    pub memo: String,
}

/// A reference project, identified by its human-assigned code (such as "20-008").
#[derive(Clone, Debug, PartialEq, Eq)]
pub struct Project {
    pub id: Option<i32>,
    pub name: String,
    pub code: String,
}

/// The entries of one project code.
#[derive(Clone, Debug, PartialEq, Eq)]
pub struct ProjectEntries {
    pub code: String,
    pub entries: Vec<Entry>,
}

/// The entry form of an interactive front end and the last message it showed.
#[derive(Clone, Debug, PartialEq, Eq)]
pub struct State {
    pub new_entry: NewEntry,
    pub message: String,
}

impl NewEntry {
    /// The stored form of this interval under identifier `id`.
    pub fn with_id(self, id: Option<i32>) -> (r: Entry)
        ensures
            r.id == id,
            r.start@ == self.start@,
            r.stop@ == self.stop@,
            r.week_day@ == self.week_day@,
            r.code@ == self.code@,
            r.memo@ == self.memo@,
    {
        Entry {
            id,
            start: self.start,
            stop: self.stop,
            week_day: self.week_day,
            code: self.code,
            memo: self.memo,
        }
    }
}

} // verus!
