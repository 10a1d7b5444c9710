//! The screen buffer's diffing render pass, the widgets, the numeric
//! helpers, the event-loop actor, the input decision, the binding table
//! and the command planner.

use rsmixer::actor_system::context::Ctx;
use rsmixer::actor_system::messages::Envelope;
use rsmixer::actors::event_loop_actor::EventLoopActor;
use rsmixer::actors::input_actor::{react, InputArrival, InputReaction, TerminalEvent};
use rsmixer::actors::Actor;
use rsmixer::models::actions::{AppMessage, PulseAudioAction, ResizeScreen, UserAction};
use rsmixer::models::entry::{ChannelVolumes, EntryIdentifier, EntryType};
use rsmixer::models::input_event::{InputEvent, KeyCode};
use rsmixer::models::style::Style;
use rsmixer::multimap::MultiMap;
use rsmixer::pa::pa_actions;
use rsmixer::ui::buffer::{Buffer, Pixel, Pixels, Rect};
use rsmixer::ui::errors::UIError;
use rsmixer::ui::widgets::warning_text::WarningTextWidget;
use rsmixer::util;

#[test]
fn volume_percent_conversions() {
    assert_eq!(util::percent_to_volume(100), 65536);
    assert_eq!(util::percent_to_volume(50), 32768);
    assert_eq!(util::percent_to_volume(0), 0);
    assert_eq!(util::percent_to_volume(-5), 0);
    // Clamped to 150%.
    assert_eq!(util::percent_to_volume(200), 150 * 65536 / 100);
    assert_eq!(util::volume_to_percent(65536), 100);
    assert_eq!(util::volume_to_percent(32768), 50);
    assert_eq!(util::volume_to_percent(0), 0);
}

#[test]
fn decimal_parse_and_render() {
    assert_eq!(util::parse_u16(&"0".to_string()), Some(0));
    assert_eq!(util::parse_u16(&"405".to_string()), Some(405));
    assert_eq!(util::parse_u16(&"65535".to_string()), Some(65535));
    assert_eq!(util::parse_u16(&"65536".to_string()), None);
    assert_eq!(util::parse_u16(&"".to_string()), None);
    assert_eq!(util::parse_u16(&"12a".to_string()), None);
    assert_eq!(util::parse_u16(&"-3".to_string()), None);
    assert_eq!(util::u16_to_string(0), "0");
    assert_eq!(util::u16_to_string(7), "7");
    assert_eq!(util::u16_to_string(405), "405");
    assert_eq!(util::u16_to_string(65535), "65535");
    // Round trip through the two helpers.
    assert_eq!(util::parse_u16(&util::u16_to_string(1234)), Some(1234));
}

#[test]
fn style_names() {
    assert_eq!(Style::from_name(&"red".to_string()), Style::Red);
    assert_eq!(Style::from_name(&"muted".to_string()), Style::Muted);
    assert_eq!(Style::from_name(&"bold".to_string()), Style::Bold);
    assert_eq!(Style::from_name(&"something else".to_string()), Style::Normal);
    assert_eq!(Style::default(), Style::Normal);
}

#[test]
fn channel_volumes_basics() {
    let mut v = ChannelVolumes::new(3, 100);
    assert_eq!(v.len(), 3);
    assert_eq!(v.max_channel(), 100);
    v.set_all(7);
    assert_eq!(v.channel(2), 7);
    let w = v.duplicate();
    assert!(v.same_as(&w));
    let other = ChannelVolumes::new(2, 7);
    assert!(!v.same_as(&other));
}

#[test]
fn buffer_draw_changes_groups_runs() {
    let mut b = Buffer::new();
    b.resize(8, 2);
    b.string(0, 0, "hi".to_string(), Style::Bold);
    let cmds = b.draw_changes();
    assert_eq!(cmds.len(), 1);
    assert_eq!((cmds[0].x, cmds[0].y), (0, 0));
    assert_eq!(cmds[0].style, Style::Bold);
    assert_eq!(cmds[0].text, vec!['h', 'i']);
    // Nothing left to draw: the mirror is up to date.
    let cmds = b.draw_changes();
    assert!(cmds.is_empty());
    // Two separated writes become two commands.
    b.string(0, 0, "X".to_string(), Style::Bold);
    b.string(4, 1, "Y".to_string(), Style::Red);
    let cmds = b.draw_changes();
    assert_eq!(cmds.len(), 2);
    assert_eq!((cmds[0].x, cmds[0].y), (0, 0));
    assert_eq!(cmds[0].text, vec!['X']);
    assert_eq!((cmds[1].x, cmds[1].y), (4, 1));
    assert_eq!(cmds[1].style, Style::Red);
}

#[test]
fn buffer_rect_fills_and_respects_bounds() {
    let mut b = Buffer::new();
    b.resize(4, 3);
    b.rect(Rect::new(1, 1, 2, 2), '#', Style::Green);
    let cmds = b.draw_changes();
    // Two rows of two cells each.
    let total: usize = cmds.iter().map(|c| c.text.len()).sum();
    assert_eq!(total, 4);
    for c in &cmds {
        assert!(c.text.iter().all(|&ch| ch == '#'));
        assert_eq!(c.style, Style::Green);
    }
}

#[test]
fn pixels_runs_and_cells() {
    let p = Pixels::new().string(Style::Normal, "ab").next(Style::Red, 'c');
    assert_eq!(p.len(), 3);
    assert_eq!(p.cell(2).text, Some('c'));
    assert_eq!(p.cell(2).style, Style::Red);
    let mut p = p;
    p.iter_mut(0, Pixel { text: Some('z'), style: Style::Bold });
    assert_eq!(p.cell(0).text, Some('z'));
    if let Some(cell) = p.get_mut(1) {
        cell.style = Style::Muted;
    }
    assert_eq!(p.cell(1).style, Style::Muted);
    assert!(p.get_mut(99).is_none());
}

#[test]
fn warning_text_renders_into_the_corner() {
    let mut b = Buffer::new();
    b.resize(20, 2);
    b.draw_changes();
    let w = WarningTextWidget { text: "oops".to_string() };
    assert!(w.render(&mut b).is_ok());
    let cmds = b.draw_changes();
    let first = cmds.first().expect("the banner paints something");
    assert_eq!((first.x, first.y), (0, 0));
    assert_eq!(&first.text[0..4], &['o', 'o', 'p', 's']);
}

#[test]
fn ui_error_messages() {
    assert_eq!(UIError::TerminalTooSmall.message(), "terminal window is too small");
    assert_eq!(UIError::TerminalError.message(), "crossterm terminal error");
}

#[test]
fn input_decision_exits_on_shutdown_without_terminal_input() {
    // A Continuous actor racing an external source against its mailbox
    // leaves as soon as Shutdown arrives, even though the terminal is
    // producing nothing at all.
    let r = react(&InputArrival::<AppMessage>::Mailbox(Envelope::Shutdown));
    assert_eq!(r, InputReaction::Exit);
    // Any other mailbox payload keeps the loop running.
    let r = react(&InputArrival::Mailbox(Envelope::Payload(AppMessage::Resize(
        ResizeScreen::new(),
    ))));
    assert_eq!(r, InputReaction::Ignore);
}

#[test]
fn input_decision_forwards_keys_and_drops_mouse_movement() {
    let r = react(&InputArrival::<AppMessage>::Terminal(TerminalEvent::Key(
        KeyCode::Char('q'),
        0,
    )));
    assert_eq!(r, InputReaction::ForwardInput(InputEvent::Key(KeyCode::Char('q'), 0)));
    let r = react(&InputArrival::<AppMessage>::Terminal(TerminalEvent::MouseMoved));
    assert_eq!(r, InputReaction::Ignore);
    let r = react(&InputArrival::<AppMessage>::Terminal(TerminalEvent::MouseScrollUp));
    assert_eq!(r, InputReaction::ForwardInput(InputEvent::ScrollUp));
    let r = react(&InputArrival::<AppMessage>::Terminal(TerminalEvent::Resize(80, 24)));
    assert_eq!(r, InputReaction::ForwardResize);
}

#[test]
fn event_loop_actor_start_and_dispatch() {
    let actor = EventLoopActor::new();
    let mut actor = match actor {
        Actor::Eventful(a) => a,
        Actor::Continuous(_) => panic!("the event loop is eventful"),
    };
    actor.start(Ctx::new());
    // Starting requested the server state.
    let reqs = actor.state.ctx.as_mut().unwrap().drain();
    assert_eq!(reqs.len(), 1);
    // A resize message sets the repaint flag; quitting is signalled
    // through the outcome.
    let out = actor.handle_message(AppMessage::Resize(ResizeScreen::new()));
    assert!(out.needs_redraw);
    assert!(!out.quit);
    actor.state.redraw.reset();
    let out = actor.handle_message(AppMessage::UserAction(UserAction::RequestQuit));
    assert!(out.quit);
}

#[test]
fn blueprints_carry_names_and_policies() {
    let b = EventLoopActor::blueprint();
    assert_eq!(b.name, "event_loop");
    assert!(b.respawn_on_panic);
    assert!(b.respawn_on_error);
    let b = rsmixer::actors::input_actor::InputActor::item();
    assert_eq!(b.name, "input");
}

#[test]
fn multimap_keeps_insertion_order_and_groups_values() {
    let mut m = MultiMap::new();
    let k1 = InputEvent::Key(KeyCode::Char('a'), 0);
    let k2 = InputEvent::ScrollUp;
    m.insert(k1, UserAction::MoveUp(1));
    m.insert(k2, UserAction::MoveDown(1));
    m.insert(k1, UserAction::MoveLeft);
    assert_eq!(m.len(), 2);
    let v = m.get_vec(k1).unwrap();
    assert_eq!(v.len(), 2);
    assert!(matches!(v[0], UserAction::MoveUp(1)));
    assert!(matches!(v[1], UserAction::MoveLeft));
    assert!(m.get_vec(InputEvent::ScrollDown).is_none());
    let (first_key, _) = m.pair_at(0);
    assert_eq!(first_key, k1);
}

#[test]
fn pa_planner_picks_operations_by_entry_type() {
    let sink = EntryIdentifier::new(EntryType::Sink, 1);
    let input = EntryIdentifier::new(EntryType::SinkInput, 2);
    let card = EntryIdentifier::new(EntryType::Card, 3);
    assert!(matches!(
        pa_actions::set_mute(sink, true),
        Some(pa_actions::PaOp::SetSinkMute(1, true))
    ));
    assert!(matches!(
        pa_actions::set_mute(input, false),
        Some(pa_actions::PaOp::SetSinkInputMute(2, false))
    ));
    assert!(pa_actions::set_mute(card, true).is_none());
    assert!(matches!(
        pa_actions::set_suspend(sink, true),
        Some(pa_actions::PaOp::SuspendSink(1, true))
    ));
    assert!(pa_actions::set_suspend(input, true).is_none());
    assert!(matches!(
        pa_actions::kill_entry(input),
        Some(pa_actions::PaOp::KillSinkInput(2))
    ));
    assert!(pa_actions::kill_entry(sink).is_none());
    assert!(matches!(
        pa_actions::change_card_profile(card, "hifi".to_string()),
        Some(pa_actions::PaOp::SetCardProfile(3, p)) if p == "hifi"
    ));
    assert!(pa_actions::change_card_profile(sink, "hifi".to_string()).is_none());
    assert!(matches!(
        pa_actions::move_entry_to_parent(input, sink),
        Some(pa_actions::PaOp::MoveSinkInput(2, 1))
    ));
    // The whole-command planner: Shutdown stops the back end.
    assert!(pa_actions::handle_command(PulseAudioAction::Shutdown).is_none());
    let ops = pa_actions::handle_command(PulseAudioAction::RequestPulseAudioState).unwrap();
    assert!(matches!(ops[0], pa_actions::PaOp::RequestCurrentState));
    // A mute command against a card plans no operation at all.
    let ops = pa_actions::handle_command(PulseAudioAction::MuteEntry(card, true)).unwrap();
    assert!(ops.is_empty());
}
