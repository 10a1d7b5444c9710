//! The user-action dispatcher: page-independent actions first, then the
//! handler of the active interaction mode.

use vstd::prelude::*;

use crate::action_handlers::{help, normal};
use crate::models::actions::UserAction;
use crate::models::context_menus::ContextMenuEffect;
use crate::models::state::RSState;
use crate::models::ui_mode::UIMode;

verus! {

/// Applies one user action to the state.  Returns `true` when the
/// action asks the whole application to quit.
pub fn handle(msg: &UserAction, state: &mut RSState) -> (quit: bool)
    requires
        old(state).wf(),
        old(state).ctx is Some,
    ensures
        final(state).wf(),
        quit == (*msg == UserAction::RequestQuit),
        *msg == UserAction::RequestQuit ==> *final(state) == *old(state),
        (*msg matches UserAction::ChangePage(p)) ==> final(state).current_page == msg->ChangePage_0
            && final(state).ui_mode == UIMode::Normal,
        (*msg matches UserAction::CyclePages(d)) ==> final(state).ui_mode == UIMode::Normal
            && final(state).current_page
            == crate::models::page_type::spec_page_of_index(
            crate::models::page_type::spec_page_index(old(state).current_page)
                + msg->CyclePages_0 as int,
        ),
    {
    match msg {
        UserAction::RequestQuit => {
            return true;
        },
        UserAction::ChangePage(page) => {
            state.change_page(*page);
            return false;
        },
        UserAction::CyclePages(which_way) => {
            let next = state.current_page.cycle(*which_way);
            state.change_page(next);
            return false;
        },
        UserAction::RequestMute(ident) => {
            state.request_mute(ident);
            return false;
        },
        UserAction::RequestChangeVolume(how_much, ident) => {
            state.request_change_volume(*how_much, ident);
            return false;
        },
        UserAction::Hide(ident) => {
            state.hide_entry(ident);
            return false;
        },
        UserAction::MoveLeft => {
            state.move_left();
            return false;
        },
        UserAction::MoveRight => {
            state.move_right();
            return false;
        },
        _ => {},
    }
    match state.ui_mode {
        UIMode::Normal => {
            normal::action_handler(msg, state);
        },
        UIMode::Help => {
            help::action_handler(msg, state);
        },
        UIMode::ContextMenu => {
            context_menu_action(msg, state);
        },
        UIMode::MoveEntry(_, _) => {
            move_entry_action(msg, state);
        },
        UIMode::InputVolumeValue => {
            input_volume_action(msg, state);
        },
        UIMode::RetryIn(_) => {},
    }
    false
}

/// Actions while a context menu is open.
fn context_menu_action(msg: &UserAction, state: &mut RSState)
    requires
        old(state).wf(),
        old(state).ctx is Some,
        old(state).ui_mode == UIMode::ContextMenu,
    ensures
        final(state).wf(),
        *msg == UserAction::CloseContextMenu ==> final(state).ui_mode == UIMode::Normal,
{
    match msg {
        UserAction::MoveUp(how_much) => {
            state.move_up(*how_much as usize);
        },
        UserAction::MoveDown(how_much) => {
            state.move_down(*how_much as usize);
        },
        UserAction::SetSelected(index) => {
            state.set_selected(*index);
        },
        UserAction::Confirm => {
            state.confirm_context_menu();
        },
        UserAction::CloseContextMenu => {
            state.change_ui_mode(UIMode::Normal);
        },
        _ => {},
    }
}

/// Actions while choosing a new parent for an entry.
fn move_entry_action(msg: &UserAction, state: &mut RSState)
    requires
        old(state).wf(),
        old(state).ctx is Some,
        old(state).ui_mode matches UIMode::MoveEntry(_, _),
    ensures
        final(state).wf(),
        *msg == UserAction::CloseContextMenu ==> final(state).ui_mode == UIMode::Normal,
        *msg == UserAction::Confirm ==> final(state).ui_mode == UIMode::Normal && final(state).ctx is Some && ({
            let pre = old(state).ctx.unwrap()@;
            let post = final(state).ctx.unwrap()@;
            &&& post.len() == pre.len() + 1
            &&& post.subrange(0, pre.len() as int) == pre
            &&& match old(state).ui_mode {
                UIMode::MoveEntry(ident, parent) => match post.last() {
                    crate::actor_system::context::Request::SendTo(name, env) => name@
                        == "pulseaudio"@ && env
                        == crate::actor_system::messages::Envelope::Payload(
                        crate::models::actions::AppMessage::PulseAudio(
                            crate::models::actions::PulseAudioAction::MoveEntryToParent(
                                ident,
                                parent,
                            ),
                        ),
                    ),
                    _ => false,
                },
                _ => false,
            }
        }),
{
    match msg {
        UserAction::MoveUp(how_much) => {
            state.move_up(*how_much as usize);
        },
        UserAction::MoveDown(how_much) => {
            state.move_down(*how_much as usize);
        },
        UserAction::Confirm => {
            let (ident, parent) = match state.ui_mode {
                UIMode::MoveEntry(i, p) => (i, p),
                _ => {
                    return ;
                },
            };
            move_entry_confirm(state, ident, parent);
        },
        UserAction::CloseContextMenu => {
            state.change_ui_mode(UIMode::Normal);
        },
        _ => {},
    }
}

/// Sends the move command for a confirmed parent choice and returns to
/// the normal mode.
fn move_entry_confirm(
    state: &mut RSState,
    ident: crate::models::entry::EntryIdentifier,
    parent: crate::models::entry::EntryIdentifier,
)
    requires
        old(state).wf(),
        old(state).ctx is Some,
    ensures
        final(state).wf(),
        final(state).ui_mode == UIMode::Normal,
        final(state).ctx is Some,
        ({
            let pre = old(state).ctx.unwrap()@;
            let post = final(state).ctx.unwrap()@;
            &&& post.len() == pre.len() + 1
            &&& post.subrange(0, pre.len() as int) == pre
            &&& match post.last() {
                crate::actor_system::context::Request::SendTo(name, env) => name@
                    == "pulseaudio"@ && env == crate::actor_system::messages::Envelope::Payload(
                    crate::models::actions::AppMessage::PulseAudio(
                        crate::models::actions::PulseAudioAction::MoveEntryToParent(ident, parent),
                    ),
                ),
                _ => false,
            }
        }),
{
    state.post_pa(
        crate::models::actions::PulseAudioAction::MoveEntryToParent(ident, parent),
    );
    state.change_ui_mode(UIMode::Normal);
}

/// Actions while typing an exact volume.
fn input_volume_action(msg: &UserAction, state: &mut RSState)
    requires
        old(state).wf(),
        old(state).ctx is Some,
        old(state).ui_mode == UIMode::InputVolumeValue,
    ensures
        final(state).wf(),
        *msg == UserAction::CloseContextMenu ==> final(state).ui_mode == UIMode::Normal,
{
    match msg {
        UserAction::Confirm | UserAction::ConfirmInputVolume => {
            state.confirm_input_volume();
            state.change_ui_mode(UIMode::Normal);
        },
        UserAction::CloseContextMenu => {
            state.change_ui_mode(UIMode::Normal);
        },
        _ => {},
    }
}

} // verus!
