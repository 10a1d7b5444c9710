//! The entry list of the current page: which identifiers are shown, in
//! which order, and which one is selected.

use vstd::prelude::*;

use crate::models::entry::EntryIdentifier;

verus! {

/// The visible entries of the current page, with the selection cursor.
#[derive(Clone, Debug)]
pub struct PageEntries {
    /// The identifiers shown, top to bottom.
    pub entries: Vec<EntryIdentifier>,
    /// The selection cursor.
    pub selected: usize,
}

impl PageEntries {
    /// The selection cursor always stays below the length, except that
    /// it rests at zero on an empty list.
    pub open spec fn wf(&self) -> bool {
        if self.entries@.len() == 0 {
            self.selected_spec() == 0
        } else {
            self.selected_spec() < self.entries@.len()
        }
    }

    /// The selection cursor, as a mathematical integer.
    pub open spec fn selected_spec(&self) -> int {
        self.selected as int
    }

    /// An empty list.
    pub fn new() -> (r: PageEntries)
        ensures
            r.wf(),
            r.entries@.len() == 0,
            r.selected_spec() == 0,
    {
        PageEntries { entries: Vec::new(), selected: 0 }
    }

    /// Number of entries shown.
    pub fn len(&self) -> (r: usize)
        ensures
            r == self.entries@.len(),
    {
        self.entries.len()
    }

    /// The selection cursor.
    pub fn selected(&self) -> (r: usize)
        ensures
            r == self.selected_spec(),
    {
        self.selected
    }

    /// The identifier at a list position, if it exists.
    pub fn get(&self, i: usize) -> (r: Option<EntryIdentifier>)
        ensures
            i < self.entries@.len() ==> r == Option::Some(self.entries@[i as int]),
            i >= self.entries@.len() ==> r is None,
    {
        if i < self.entries.len() {
            Option::Some(self.entries[i])
        } else {
            Option::None
        }
    }

    /// The selected identifier, if the list is not empty.
    pub fn get_selected(&self) -> (r: Option<EntryIdentifier>)
        requires
            self.wf(),
        ensures
            self.entries@.len() > 0 ==> r == Option::Some(self.entries@[self.selected_spec()]),
            self.entries@.len() == 0 ==> r is None,
    {
        if self.entries.len() > 0 {
            Option::Some(self.entries[self.selected])
        } else {
            Option::None
        }
    }

    /// The list position of an identifier, if it is shown.
    pub fn ident_position(&self, ident: EntryIdentifier) -> (r: Option<usize>)
        ensures
            match r {
                Option::Some(i) => i < self.entries@.len() && self.entries@[i as int] == ident,
                Option::None => forall|i: int|
                    0 <= i < self.entries@.len() ==> self.entries@[i] != ident,
            },
    {
        let n = self.entries.len();
        for i in 0..n
            invariant
                n == self.entries@.len(),
                forall|j: int| 0 <= j < i ==> self.entries@[j] != ident,
        {
            let e = self.entries[i];
            if e.entry_type == ident.entry_type && e.index == ident.index {
                return Option::Some(i);
            }
        }
        Option::None
    }

    /// Moves the cursor up by `how_much`, stopping at the top.
    pub fn up(&mut self, how_much: usize)
        requires
            old(self).wf(),
        ensures
            final(self).wf(),
            final(self).entries == old(self).entries,
            final(self).selected_spec() == if old(self).selected_spec() >= how_much {
                old(self).selected_spec() - how_much
            } else {
                0int
            },
    {
        if self.selected >= how_much {
            self.selected = self.selected - how_much;
        } else {
            self.selected = 0;
        }
    }

    /// Moves the cursor down by `how_much`, stopping at the bottom.
    pub fn down(&mut self, how_much: usize)
        requires
            old(self).wf(),
        ensures
            final(self).wf(),
            final(self).entries == old(self).entries,
            old(self).entries@.len() == 0 ==> final(self).selected_spec() == 0,
            old(self).entries@.len() > 0 ==> final(self).selected_spec() == if old(self).selected_spec() + how_much < old(self).entries@.len() {
                old(self).selected_spec() + how_much
            } else {
                old(self).entries@.len() - 1
            },
    {
        if self.entries.len() == 0 {
            return ;
        }
        let room = self.entries.len() - 1 - self.selected;
        if how_much <= room {
            self.selected = self.selected + how_much;
        } else {
            self.selected = self.entries.len() - 1;
        }
    }

    /// Puts the cursor at `index`, clamped to the list.
    pub fn set_selected(&mut self, index: usize)
        ensures
            final(self).wf(),
            final(self).entries == old(self).entries,
            old(self).entries@.len() == 0 ==> final(self).selected_spec() == 0,
            old(self).entries@.len() > 0 ==> final(self).selected_spec() == if index < old(self).entries@.len() {
                index as int
            } else {
                old(self).entries@.len() - 1
            },
    {
        if self.entries.len() == 0 {
            self.selected = 0;
        } else if index < self.entries.len() {
            self.selected = index;
        } else {
            self.selected = self.entries.len() - 1;
        }
    }

    /// Replaces the shown identifiers, keeping the cursor in range.
    pub fn set(&mut self, entries: Vec<EntryIdentifier>)
        ensures
            final(self).wf(),
            final(self).entries == entries,
            entries@.len() == 0 ==> final(self).selected_spec() == 0,
            entries@.len() > 0 ==> final(self).selected_spec() == if old(self).selected_spec()
                < entries@.len() {
                old(self).selected_spec()
            } else {
                entries@.len() - 1
            },
    {
        self.entries = entries;
        if self.entries.len() == 0 {
            self.selected = 0;
        } else if self.selected >= self.entries.len() {
            self.selected = self.entries.len() - 1;
        }
    }
}

} // verus!
