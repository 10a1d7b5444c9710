//! Actions while the help overlay is open.

use vstd::prelude::*;

use crate::models::actions::UserAction;
use crate::models::state::RSState;
use crate::models::ui_mode::UIMode;

verus! {

/// Scrolls the help overlay or closes it.
pub fn action_handler(msg: &UserAction, state: &mut RSState)
    requires
        old(state).wf(),
    ensures
        final(state).wf(),
        match *msg {
            UserAction::MoveUp(n) => final(state).help.scroll == if old(state).help.scroll
                >= n {
                old(state).help.scroll - n
            } else {
                0int
            } && final(state).redraw.context_menu,
            UserAction::MoveDown(n) => final(state).help.scroll == if old(state).help.scroll
                + n <= usize::MAX {
                old(state).help.scroll + n
            } else {
                usize::MAX as int
            } && final(state).redraw.context_menu,
            UserAction::CloseContextMenu => final(state).ui_mode == UIMode::Normal && final(state).redraw.resize,
            _ => *final(state) == *old(state),
        },
    {
    match msg {
        UserAction::MoveUp(how_much) => {
            state.help.up(*how_much as usize);
            state.redraw.context_menu = true;
        },
        UserAction::MoveDown(how_much) => {
            state.help.down(*how_much as usize);
            state.redraw.context_menu = true;
        },
        UserAction::CloseContextMenu => {
            state.change_ui_mode(UIMode::Normal);
        },
        _ => {},
    }
}

} // verus!
