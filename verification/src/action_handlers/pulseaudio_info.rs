//! Server object updates: entries appearing, changing and vanishing.

use vstd::prelude::*;

use crate::models::actions::EntryUpdate;
use crate::models::state::RSState;

verus! {

/// Takes one object update into the state.
pub fn handle(msg: EntryUpdate, state: &mut RSState)
    requires
        old(state).wf(),
    ensures
        final(state).wf(),
        final(state).current_page == old(state).current_page,
        match msg {
            EntryUpdate::Update(ident, entry) => {
                &&& final(state).entries@.contains(ident)
                &&& ({
                    let stored = final(state).entries@.stored(ident).unwrap();
                    stored.name == entry.name && stored.entry_kind == entry.entry_kind
                        && stored.hidden == entry.hidden
                })
            },
            EntryUpdate::Remove(ident) => !old(state).entries@.contains(ident) ==> final(state).entries@ == old(state).entries@,
        },
{
    match msg {
        EntryUpdate::Update(ident, mut entry) => {
            entry.entry_ident = ident;
            state.update_entry(&ident, entry);
        },
        EntryUpdate::Remove(ident) => {
            state.remove_entry(&ident);
        },
    }
}

} // verus!
