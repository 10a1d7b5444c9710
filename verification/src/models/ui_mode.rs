//! The interaction modes the event loop can be in.

use vstd::prelude::*;

use crate::models::entry::EntryIdentifier;

verus! {

/// What the user is currently interacting with.
#[derive(Clone, Copy, Debug, PartialEq, Eq, Structural)]
pub enum UIMode {
    /// Browsing the entry list.
    Normal,
    /// Choosing from an entry's context menu.
    ContextMenu,
    /// Reading the help overlay.
    Help,
    /// Typing an exact volume percentage.
    InputVolumeValue,
    /// Choosing a new parent for an entry: the entry being moved and
    /// the currently proposed parent.
    MoveEntry(EntryIdentifier, EntryIdentifier),
    /// The audio-server connection is down; retrying in the given
    /// number of seconds.
    RetryIn(u64),
}

} // verus!
