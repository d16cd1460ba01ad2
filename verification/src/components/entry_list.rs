//! The list of a directory's entries.
use vstd::prelude::*;

verus! {

/// The entries shown, one row each, in listing order.
pub struct EntryList {
    pub entries: Vec<String>,
}

impl EntryList {
    pub fn new(entries: Vec<String>) -> (l: Self)
        ensures
            l.entries@ == entries@,
    {
        EntryList { entries }
    }

    /// Shows `entries` in place of the current ones.
    pub fn set_entries(&mut self, entries: Vec<String>)
        ensures
            final(self).entries@ == entries@,
    {
        self.entries = entries;
    }

    /// How many rows the list has.
    pub fn len(&self) -> (n: usize)
        ensures
            n == self.entries@.len(),
    {
        self.entries.len()
    }

    /// The entry shown in row `index`.
    pub fn entry(&self, index: usize) -> (e: String)
        requires
            index < self.entries@.len(),
        ensures
            e@ == self.entries@[index as int]@,
    {
        self.entries[index].clone()
    }
}

} // verus!
