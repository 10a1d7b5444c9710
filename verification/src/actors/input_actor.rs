//! The input reader actor: a continuous actor racing the terminal's
//! event stream against its own mailbox, forwarding interesting input
//! to the event loop and stopping on `Shutdown`.
//!
//! The asynchronous race itself runs in the host; the decision of what
//! each arrival means is the verified [`react`] function.

use vstd::prelude::*;
use vstd::string::StringExecFns;

use crate::actor_system::messages::Envelope;
use crate::actor_system::worker::{ActorBlueprint, ActorVariant};
use crate::models::actions::{AppMessage, ResizeScreen};
use crate::models::input_event::{InputEvent, KeyCode};

verus! {

/// A plain model of one terminal event, as the host hands it over.
#[derive(Clone, Copy, Debug, PartialEq, Eq, Structural)]
pub enum TerminalEvent {
    /// A key press: the key and its modifier bits.
    Key(KeyCode, u8),
    /// The mouse moved without a wheel step.
    MouseMoved,
    /// The mouse wheel rolled up.
    MouseScrollUp,
    /// The mouse wheel rolled down.
    MouseScrollDown,
    /// Another mouse event (a click or drag).
    MouseOther,
    /// The terminal was resized.
    Resize(u16, u16),
    /// Any other terminal event.
    Other,
}

/// One arrival in the input actor's race: either the terminal produced
/// an event, or the mailbox delivered an envelope.
#[derive(Debug)]
pub enum InputArrival<P> {
    Terminal(TerminalEvent),
    Mailbox(Envelope<P>),
}

/// What the input loop does with one arrival.
#[derive(Clone, Copy, Debug, PartialEq, Eq, Structural)]
pub enum InputReaction {
    /// Forward this input event to the event loop.
    ForwardInput(InputEvent),
    /// Tell the event loop the screen was resized.
    ForwardResize,
    /// Nothing; keep racing.
    Ignore,
    /// Leave the loop: the actor stops normally.
    Exit,
}

/// The input reader actor.  It holds no state of its own.
#[derive(Debug)]
pub struct InputActor {}

impl InputActor {
    /// A fresh instance.
    pub fn factory() -> (r: crate::actors::Actor)
        ensures
            r is Continuous,
    {
        crate::actors::Actor::Continuous(InputActor {})
    }

    /// The registration descriptor: the mailbox name `input`, and hooks
    /// that always respawn.
    pub fn item() -> (r: ActorBlueprint)
        ensures
            r@.name == "input"@,
            r@.variant == ActorVariant::Continuous,
            r@.respawn_on_panic,
            r@.respawn_on_error,
    {
        ActorBlueprint::new(String::from_str("input"), ActorVariant::Continuous).on_panic(
            true,
        ).on_error(true)
    }
}

/// The input loop's whole decision logic: what one arrival means.
///
/// A `Shutdown` on the mailbox always exits, whatever the terminal is
/// doing — in particular the loop never needs another terminal event to
/// stop.  Key presses and wheel steps are forwarded, mouse movement is
/// dropped, and a resize is reported as such.
pub fn react<P>(arrival: &InputArrival<P>) -> (r: InputReaction)
    ensures
        match *arrival {
            InputArrival::Mailbox(env) => r == if env is Shutdown {
                InputReaction::Exit
            } else {
                InputReaction::Ignore
            },
            InputArrival::Terminal(ev) => match ev {
                TerminalEvent::Key(code, modifiers) => r == InputReaction::ForwardInput(
                    InputEvent::Key(code, modifiers),
                ),
                TerminalEvent::MouseScrollUp => r == InputReaction::ForwardInput(
                    InputEvent::ScrollUp,
                ),
                TerminalEvent::MouseScrollDown => r == InputReaction::ForwardInput(
                    InputEvent::ScrollDown,
                ),
                TerminalEvent::MouseMoved | TerminalEvent::MouseOther | TerminalEvent::Other => r
                    == InputReaction::Ignore,
                TerminalEvent::Resize(_, _) => r == InputReaction::ForwardResize,
            },
        },
{
    match arrival {
        InputArrival::Mailbox(env) => {
            if env.is_shutdown() {
                InputReaction::Exit
            } else {
                InputReaction::Ignore
            }
        },
        InputArrival::Terminal(ev) => match ev {
            TerminalEvent::Key(code, modifiers) => InputReaction::ForwardInput(
                InputEvent::Key(*code, *modifiers),
            ),
            TerminalEvent::MouseScrollUp => InputReaction::ForwardInput(InputEvent::ScrollUp),
            TerminalEvent::MouseScrollDown => InputReaction::ForwardInput(InputEvent::ScrollDown),
            TerminalEvent::MouseMoved => InputReaction::Ignore,
            TerminalEvent::MouseOther => InputReaction::Ignore,
            TerminalEvent::Other => InputReaction::Ignore,
            TerminalEvent::Resize(_, _) => InputReaction::ForwardResize,
        },
    }
}

/// The message the event loop receives for a forwarded reaction.
pub fn reaction_message(r: &InputReaction) -> (msg: Option<AppMessage>)
    ensures
        match *r {
            InputReaction::ForwardInput(ev) => msg == Option::Some(AppMessage::UserInput(ev)),
            InputReaction::ForwardResize => msg matches Option::Some(m) && m matches
                AppMessage::Resize(_),
            InputReaction::Ignore | InputReaction::Exit => msg is None,
        },
{
    match r {
        InputReaction::ForwardInput(ev) => Option::Some(AppMessage::UserInput(*ev)),
        InputReaction::ForwardResize => Option::Some(
            AppMessage::Resize(ResizeScreen::new()),
        ),
        InputReaction::Ignore => Option::None,
        InputReaction::Exit => Option::None,
    }
}

} // verus!
