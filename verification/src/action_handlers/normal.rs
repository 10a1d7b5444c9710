//! Actions while browsing the entry list.

use vstd::prelude::*;

use crate::models::actions::UserAction;
use crate::models::state::{lemma_page_idents_ignore_display, RSState};
use crate::models::ui_mode::UIMode;

verus! {

/// Applies a user action in the normal browsing mode.
pub fn action_handler(msg: &UserAction, state: &mut RSState)
    requires
        old(state).wf(),
        old(state).ui_mode == UIMode::Normal,
    ensures
        final(state).wf(),
        final(state).current_page == old(state).current_page,
        final(state).ctx == old(state).ctx,
        match *msg {
            UserAction::MoveUp(_) | UserAction::MoveDown(_) => {
                &&& final(state).ui_mode == UIMode::Normal
                &&& (old(state).page_entries.entries@.len() > 0 ==> final(state).redraw.affected_entries@.contains(
                    old(state).page_entries.selected_spec() as usize,
                ))
            },
            UserAction::SetSelected(_) => final(state).ui_mode == old(state).ui_mode,
            UserAction::OpenContextMenu(_) => final(state).ui_mode == UIMode::ContextMenu
                || final(state).ui_mode == old(state).ui_mode,
            UserAction::ShowHelp => final(state).ui_mode == UIMode::Help && final(state).redraw.resize,
            UserAction::InputVolumeValue => final(state).ui_mode == UIMode::InputVolumeValue
                && final(state).redraw.resize,
            _ => *final(state) == *old(state),
        },
{
    match msg {
        UserAction::MoveUp(how_much) => {
            let ghost rows0 = state.entries@.rows;
            deselect_current(state);
            let ghost rows1 = state.entries@.rows;
            state.move_up(*how_much as usize);
            select_current(state);
            proof {
                let (parent, child) = RSState::spec_page_types(old(state).current_page);
                lemma_page_idents_ignore_display(rows1, rows0, parent, child);
            }
        },
        UserAction::MoveDown(how_much) => {
            let ghost rows0 = state.entries@.rows;
            deselect_current(state);
            let ghost rows1 = state.entries@.rows;
            state.move_down(*how_much as usize);
            select_current(state);
            proof {
                let (parent, child) = RSState::spec_page_types(old(state).current_page);
                lemma_page_idents_ignore_display(rows1, rows0, parent, child);
            }
        },
        UserAction::SetSelected(index) => {
            state.set_selected(*index);
        },
        UserAction::OpenContextMenu(ident) => {
            state.open_context_menu(ident);
        },
        UserAction::ShowHelp => {
            state.change_ui_mode(UIMode::Help);
        },
        UserAction::InputVolumeValue => {
            state.setup_volume_input();
            state.change_ui_mode(UIMode::InputVolumeValue);
        },
        _ => {},
    }
}

/// Clears the highlight flag of the entry under the cursor.
fn deselect_current(state: &mut RSState)
    requires
        old(state).wf(),
    ensures
        final(state).wf(),
        final(state).current_page == old(state).current_page,
        final(state).ui_mode == old(state).ui_mode,
        final(state).page_entries == old(state).page_entries,
        final(state).ctx == old(state).ctx,
        final(state).entries@.rows.len() == old(state).entries@.rows.len(),
        final(state).redraw == old(state).redraw,
        forall|k: int|
            0 <= k < final(state).entries@.rows.len() ==> (#[trigger] final(state).entries@.rows[k]).entry_ident == old(state).entries@.rows[k].entry_ident && final(state).entries@.rows[k].hidden == old(state).entries@.rows[k].hidden,
{
    match state.page_entries.get_selected() {
        Option::Some(ident) => {
            proof {
                if state.entries@.contains(ident) {
                    crate::models::entry::lemma_position_finds(state.entries@.rows, ident, 0);
                }
            }
            state.entries.set_selected_flag(&ident, false);
        },
        Option::None => {},
    }
}

/// Sets the highlight flag of the entry under the cursor.
fn select_current(state: &mut RSState)
    requires
        old(state).wf(),
    ensures
        final(state).wf(),
        final(state).current_page == old(state).current_page,
        final(state).ui_mode == old(state).ui_mode,
        final(state).page_entries == old(state).page_entries,
        final(state).ctx == old(state).ctx,
        final(state).entries@.rows.len() == old(state).entries@.rows.len(),
        final(state).redraw == old(state).redraw,
        forall|k: int|
            0 <= k < final(state).entries@.rows.len() ==> (#[trigger] final(state).entries@.rows[k]).entry_ident == old(state).entries@.rows[k].entry_ident && final(state).entries@.rows[k].hidden == old(state).entries@.rows[k].hidden,
{
    match state.page_entries.get_selected() {
        Option::Some(ident) => {
            proof {
                if state.entries@.contains(ident) {
                    crate::models::entry::lemma_position_finds(state.entries@.rows, ident, 0);
                }
            }
            state.entries.set_selected_flag(&ident, true);
        },
        Option::None => {},
    }
}

} // verus!
