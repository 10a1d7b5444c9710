//! The three pages the mixer cycles through.

use vstd::prelude::*;

use crate::models::entry::EntryType;

verus! {

/// Which page of audio objects is shown.
#[derive(Clone, Copy, Debug, PartialEq, Eq, Structural)]
pub enum PageType {
    /// Sinks and the streams playing into them.
    Output,
    /// Sources and the streams recording from them.
    Input,
    /// Sound cards and their profiles.
    Cards,
}

/// The position of a page in the cycling order.
pub open spec fn spec_page_index(p: PageType) -> int {
    match p {
        PageType::Output => 0,
        PageType::Input => 1,
        PageType::Cards => 2,
    }
}

/// The page at a cycling position, taken modulo the page count.
pub open spec fn spec_page_of_index(i: int) -> PageType {
    if i % 3 == 0 {
        PageType::Output
    } else if i % 3 == 1 {
        PageType::Input
    } else {
        PageType::Cards
    }
}

impl PageType {
    /// The position of this page in the cycling order.
    pub fn to_index(&self) -> (r: i8)
        ensures
            r == spec_page_index(*self),
    {
        match self {
            PageType::Output => 0,
            PageType::Input => 1,
            PageType::Cards => 2,
        }
    }

    /// The page `which_way` steps away in the cycling order, wrapping
    /// around in both directions.
    pub fn cycle(&self, which_way: i8) -> (r: PageType)
        ensures
            r == spec_page_of_index(spec_page_index(*self) + which_way),
    {
        let base: i16 = self.to_index() as i16 + which_way as i16;
        let m: i16 = ((base % 3) + 3) % 3;
        proof {
            assert(m == (spec_page_index(*self) + which_way as int) % 3) by (nonlinear_arith)
                requires
                    base == spec_page_index(*self) + which_way as int,
                    m == ((base % 3) + 3) % 3;
        }
        if m == 0 {
            PageType::Output
        } else if m == 1 {
            PageType::Input
        } else {
            PageType::Cards
        }
    }

    /// The entry kinds a page shows: the device type and the stream
    /// type attached to it.  Cards have no stream type.
    pub fn parent_child_types(&self) -> (r: (EntryType, EntryType))
        ensures
            *self is Output ==> r == (EntryType::Sink, EntryType::SinkInput),
            *self is Input ==> r == (EntryType::Source, EntryType::SourceOutput),
            *self is Cards ==> r == (EntryType::Card, EntryType::Card),
    {
        match self {
            PageType::Output => (EntryType::Sink, EntryType::SinkInput),
            PageType::Input => (EntryType::Source, EntryType::SourceOutput),
            PageType::Cards => (EntryType::Card, EntryType::Card),
        }
    }
}

} // verus!
