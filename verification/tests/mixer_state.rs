//! The mixer state model: entry bookkeeping, page lists, modes, volume
//! requests and the handlers around them.

use rsmixer::actor_system::context::{Ctx, Request};
use rsmixer::actor_system::messages::Envelope;
use rsmixer::models::actions::{AppMessage, EntryUpdate, PAStatus, PulseAudioAction, UserAction};
use rsmixer::models::context_menus::{ContextMenuEffect, ContextMenuOption};
use rsmixer::models::entry::{
    ChannelVolumes, Entry, EntryIdentifier, EntryKind, EntryType, PlayEntry,
};
use rsmixer::models::page_type::PageType;
use rsmixer::models::state::RSState;
use rsmixer::models::ui_mode::UIMode;
use rsmixer::models::input_event::{InputEvent, KeyCode};
use rsmixer::ui::buffer::Rect;

fn sink(index: u32, name: &str, volume: u32) -> Entry {
    Entry {
        entry_ident: EntryIdentifier::new(EntryType::Sink, index),
        name: name.to_string(),
        is_selected: false,
        hidden: false,
        area: Rect::new(0, 0, 0, 0),
        entry_kind: EntryKind::PlayEntry(PlayEntry {
            mute: false,
            volume: ChannelVolumes::new(2, volume),
            parent: None,
            suspended: false,
        }),
    }
}

fn state() -> RSState {
    RSState::new(Ctx::new())
}

fn last_pa_command(state: &mut RSState) -> PulseAudioAction {
    let ctx = state.ctx.as_mut().expect("state has a routing handle");
    let reqs = ctx.drain();
    match reqs.into_iter().last().expect("at least one request") {
        Request::SendTo(name, Envelope::Payload(AppMessage::PulseAudio(cmd))) => {
            assert_eq!(name, "pulseaudio");
            cmd
        }
        other => panic!("expected an audio-server command, got {other:?}"),
    }
}

#[test]
fn update_entry_appears_on_matching_page() {
    let mut s = state();
    let ident = EntryIdentifier::new(EntryType::Sink, 3);
    s.update_entry(&ident, sink(3, "speakers", 32768));
    assert_eq!(s.page_entries.entries.len(), 1);
    assert_eq!(s.page_entries.entries[0], ident);
    // A source does not belong to the output page.
    let src = EntryIdentifier::new(EntryType::Source, 1);
    let mut e = sink(1, "mic", 32768);
    e.entry_ident = src;
    s.update_entry(&src, e);
    assert_eq!(s.page_entries.entries.len(), 1);
}

#[test]
fn remove_entry_updates_page_and_closes_menu() {
    let mut s = state();
    let ident = EntryIdentifier::new(EntryType::Sink, 3);
    s.update_entry(&ident, sink(3, "speakers", 32768));
    s.open_context_menu(&None);
    assert_eq!(s.ui_mode, UIMode::ContextMenu);
    s.remove_entry(&ident);
    assert_eq!(s.page_entries.entries.len(), 0);
    assert_eq!(s.ui_mode, UIMode::Normal);
}

#[test]
fn hide_entry_removes_it_from_the_page() {
    let mut s = state();
    let ident = EntryIdentifier::new(EntryType::Sink, 3);
    s.update_entry(&ident, sink(3, "speakers", 32768));
    s.hide_entry(&Some(ident));
    assert_eq!(s.page_entries.entries.len(), 0);
    // The entry itself is still stored.
    assert!(s.entries.get(&ident).is_some());
}

#[test]
fn request_mute_toggles_the_current_flag() {
    let mut s = state();
    let ident = EntryIdentifier::new(EntryType::Sink, 3);
    s.update_entry(&ident, sink(3, "speakers", 32768));
    s.request_mute(&None);
    match last_pa_command(&mut s) {
        PulseAudioAction::MuteEntry(i, m) => {
            assert_eq!(i, ident);
            assert!(m, "an unmuted entry is asked to mute");
        }
        other => panic!("expected MuteEntry, got {other:?}"),
    }
}

#[test]
fn request_mute_without_entries_is_a_no_op() {
    let mut s = state();
    s.request_mute(&None);
    assert_eq!(s.ctx.as_mut().unwrap().drain().len(), 0);
}

#[test]
fn request_change_volume_sets_every_channel() {
    let mut s = state();
    let ident = EntryIdentifier::new(EntryType::Sink, 3);
    // 32768 raw is 50%.
    s.update_entry(&ident, sink(3, "speakers", 32768));
    s.request_change_volume(10, &None);
    match last_pa_command(&mut s) {
        PulseAudioAction::SetVolume(i, v) => {
            assert_eq!(i, ident);
            assert_eq!(v.len(), 2);
            // 60% of 65536.
            assert_eq!(v.channel(0), 60 * 65536 / 100);
            assert_eq!(v.channel(1), 60 * 65536 / 100);
        }
        other => panic!("expected SetVolume, got {other:?}"),
    }
}

#[test]
fn confirm_input_volume_parses_the_typed_percentage() {
    let mut s = state();
    let ident = EntryIdentifier::new(EntryType::Sink, 3);
    s.update_entry(&ident, sink(3, "speakers", 32768));
    s.set_volume_input_value("50".to_string(), 2);
    s.confirm_input_volume();
    match last_pa_command(&mut s) {
        PulseAudioAction::SetVolume(i, v) => {
            assert_eq!(i, ident);
            assert_eq!(v.channel(0), 32768);
        }
        other => panic!("expected SetVolume, got {other:?}"),
    }
}

#[test]
fn confirm_input_volume_rejects_garbage() {
    let mut s = state();
    let ident = EntryIdentifier::new(EntryType::Sink, 3);
    s.update_entry(&ident, sink(3, "speakers", 32768));
    s.set_volume_input_value("5a".to_string(), 2);
    s.confirm_input_volume();
    assert_eq!(s.ctx.as_mut().unwrap().drain().len(), 0);
}

#[test]
fn setup_volume_input_shows_the_current_percentage() {
    let mut s = state();
    let ident = EntryIdentifier::new(EntryType::Sink, 3);
    s.update_entry(&ident, sink(3, "speakers", 32768));
    s.setup_volume_input();
    assert_eq!(s.input_exact_volume.value, "50");
    assert_eq!(s.input_exact_volume.cursor, 2);
}

#[test]
fn context_menu_resolve_mute_sends_command() {
    let mut s = state();
    let ident = EntryIdentifier::new(EntryType::Sink, 3);
    s.update_entry(&ident, sink(3, "speakers", 32768));
    s.open_context_menu(&Some(ident));
    assert_eq!(s.ui_mode, UIMode::ContextMenu);
    assert_eq!(s.context_menu.items[0].action, ContextMenuOption::Mute);
    assert_eq!(s.context_menu.items[0].label, "Mute");
    s.confirm_context_menu();
    assert_eq!(s.ui_mode, UIMode::Normal);
    match last_pa_command(&mut s) {
        PulseAudioAction::MuteEntry(i, m) => {
            assert_eq!(i, ident);
            assert!(m);
        }
        other => panic!("expected MuteEntry, got {other:?}"),
    }
}

#[test]
fn stream_menu_offers_move_and_kill() {
    let mut s = state();
    let ident = EntryIdentifier::new(EntryType::SinkInput, 7);
    let mut e = sink(7, "music", 32768);
    e.entry_ident = ident;
    if let EntryKind::PlayEntry(ref mut p) = e.entry_kind {
        p.parent = Some(3);
    }
    s.update_entry(&EntryIdentifier::new(EntryType::Sink, 3), sink(3, "speakers", 32768));
    s.update_entry(&ident, e);
    s.open_context_menu(&Some(ident));
    let actions: Vec<ContextMenuOption> =
        s.context_menu.items.iter().map(|it| it.action).collect();
    assert_eq!(
        actions,
        vec![ContextMenuOption::Mute, ContextMenuOption::Move, ContextMenuOption::Kill]
    );
    // Confirm the move option: the mode changes to MoveEntry with the
    // stream's current device as the proposed parent.
    let mut ctx = Ctx::new();
    let effect = s.context_menu.resolve(ident, &mut ctx);
    assert_eq!(effect, ContextMenuEffect::Nothing);
    s.set_selected(1);
    s.confirm_context_menu();
    match s.ui_mode {
        UIMode::MoveEntry(moved, parent) => {
            assert_eq!(moved, ident);
            assert_eq!(parent, EntryIdentifier::new(EntryType::Sink, 3));
        }
        other => panic!("expected MoveEntry mode, got {other:?}"),
    }
}

#[test]
fn change_page_and_cycle() {
    let mut s = state();
    s.change_page(PageType::Input);
    assert_eq!(s.current_page, PageType::Input);
    assert_eq!(s.ui_mode, UIMode::Normal);
    assert_eq!(PageType::Output.cycle(1), PageType::Input);
    assert_eq!(PageType::Output.cycle(-1), PageType::Cards);
    assert_eq!(PageType::Cards.cycle(1), PageType::Output);
    assert_eq!(PageType::Cards.cycle(4), PageType::Output);
}

#[test]
fn reset_clears_state_but_keeps_bindings() {
    let mut s = state();
    let ident = EntryIdentifier::new(EntryType::Sink, 3);
    s.update_entry(&ident, sink(3, "speakers", 32768));
    let mut bindings = rsmixer::multimap::MultiMap::new();
    bindings.insert(
        rsmixer::models::input_event::InputEvent::ScrollUp,
        UserAction::MoveUp(1),
    );
    s.set_bindings(bindings);
    s.reset();
    assert_eq!(s.entries.len(), 0);
    assert!(s.redraw.resize);
    assert_eq!(s.bindings.len(), 1);
    match last_pa_command(&mut s) {
        PulseAudioAction::CreateMonitors(v) => assert!(v.is_empty()),
        other => panic!("expected CreateMonitors, got {other:?}"),
    }
}

#[test]
fn status_retry_shows_warning_and_failed_quits() {
    let mut s = state();
    let quit = rsmixer::action_handlers::pulseaudio_status::handle(&PAStatus::RetryIn(5), &mut s);
    assert!(!quit);
    assert_eq!(s.ui_mode, UIMode::RetryIn(5));
    assert!(!s.warning_text.text.is_empty());
    let quit =
        rsmixer::action_handlers::pulseaudio_status::handle(&PAStatus::ConnectToPAFailed, &mut s);
    assert!(quit);
}

#[test]
fn entry_update_handler_routes_updates_and_removals() {
    let mut s = state();
    let ident = EntryIdentifier::new(EntryType::Sink, 3);
    rsmixer::action_handlers::pulseaudio_info::handle(
        EntryUpdate::Update(ident, sink(3, "speakers", 32768)),
        &mut s,
    );
    assert!(s.entries.get(&ident).is_some());
    rsmixer::action_handlers::pulseaudio_info::handle(EntryUpdate::Remove(ident), &mut s);
    assert!(s.entries.get(&ident).is_none());
}

#[test]
fn user_input_forwards_bound_actions_in_order() {
    let mut s = state();
    let key = InputEvent::Key(KeyCode::Char('j'), 0);
    let mut bindings = rsmixer::multimap::MultiMap::new();
    bindings.insert(key, UserAction::MoveDown(1));
    bindings.insert(key, UserAction::MoveLeft);
    s.set_bindings(bindings);
    rsmixer::action_handlers::user_input::handle(key, &mut s);
    let reqs = s.ctx.as_mut().unwrap().drain();
    assert_eq!(reqs.len(), 2);
    assert!(matches!(
        &reqs[0],
        Request::SendTo(n, Envelope::Payload(AppMessage::UserAction(UserAction::MoveDown(1))))
            if n == "event_loop"
    ));
    assert!(matches!(
        &reqs[1],
        Request::SendTo(n, Envelope::Payload(AppMessage::UserAction(UserAction::MoveLeft)))
            if n == "event_loop"
    ));
    // An unbound event is dropped.
    rsmixer::action_handlers::user_input::handle(InputEvent::ScrollDown, &mut s);
    assert_eq!(s.ctx.as_mut().unwrap().drain().len(), 0);
}

#[test]
fn movement_in_normal_mode_clamps() {
    let mut s = state();
    for i in 0..3u32 {
        s.update_entry(
            &EntryIdentifier::new(EntryType::Sink, i),
            sink(i, "dev", 32768),
        );
    }
    assert_eq!(s.page_entries.selected(), 0);
    s.move_down(2);
    assert_eq!(s.page_entries.selected(), 2);
    s.move_down(5);
    assert_eq!(s.page_entries.selected(), 2);
    s.move_up(1);
    assert_eq!(s.page_entries.selected(), 1);
    s.move_up(9);
    assert_eq!(s.page_entries.selected(), 0);
}

#[test]
fn help_mode_scrolls() {
    let mut s = state();
    s.change_ui_mode(UIMode::Help);
    s.move_down(4);
    assert_eq!(s.help.scroll, 4);
    s.move_up(1);
    assert_eq!(s.help.scroll, 3);
    rsmixer::action_handlers::help::action_handler(&UserAction::CloseContextMenu, &mut s);
    assert_eq!(s.ui_mode, UIMode::Normal);
}

#[test]
fn quit_action_signals_shutdown() {
    let mut s = state();
    let quit = rsmixer::action_handlers::user_action::handle(&UserAction::RequestQuit, &mut s);
    assert!(quit);
    let quit = rsmixer::action_handlers::user_action::handle(&UserAction::ShowHelp, &mut s);
    assert!(!quit);
    assert_eq!(s.ui_mode, UIMode::Help);
}
