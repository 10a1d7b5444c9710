//! The event loop actor: owns the mixer state and reacts to every
//! message kind the application routes.

use vstd::prelude::*;
use vstd::string::StringExecFns;

use crate::action_handlers::{pulseaudio_info, pulseaudio_status, user_action, user_input};
use crate::actor_system::context::Ctx;
use crate::actor_system::worker::{ActorBlueprint, ActorVariant};
use crate::models::actions::{AppMessage, EntryUpdate, PulseAudioAction, UserAction};
use crate::models::state::RSState;

verus! {

/// What the scheduler must do after one handled message.
#[derive(Clone, Copy, Debug, PartialEq, Eq, Structural)]
pub struct EventOutcome {
    /// The screen must be repainted (and the repaint set reset).
    pub needs_redraw: bool,
    /// The whole system should shut down.
    pub quit: bool,
}

/// The event loop actor: the mixer state, driven by mailbox messages.
#[derive(Debug)]
pub struct EventLoopActor {
    /// The whole application state.
    pub state: RSState,
}

impl EventLoopActor {
    /// A fresh instance, not yet started.
    pub fn new() -> (r: crate::actors::Actor)
        ensures
            r matches crate::actors::Actor::Eventful(a) && a.state.wf() && a.state.spec_fresh()
                && a.state.ctx is None,
    {
        crate::actors::Actor::Eventful(EventLoopActor { state: RSState::default() })
    }

    /// The registration descriptor: the mailbox name `event_loop`, and
    /// hooks that always respawn.
    pub fn blueprint() -> (r: ActorBlueprint)
        ensures
            r@.name == "event_loop"@,
            r@.variant == ActorVariant::Eventful,
            r@.respawn_on_panic,
            r@.respawn_on_error,
    {
        ActorBlueprint::new(String::from_str("event_loop"), ActorVariant::Eventful).on_panic(
            true,
        ).on_error(true)
    }

    /// Binds the state to a routing handle, requests the audio server's
    /// current state, and asks for a first full repaint.  The terminal
    /// itself is prepared by the host before this runs.
    pub fn start(&mut self, ctx: Ctx<AppMessage>)
        ensures
            final(self).state.wf(),
            final(self).state.spec_fresh(),
            final(self).state.redraw.resize,
            final(self).state.ctx is Some,
            ({
                let post = final(self).state.ctx.unwrap()@;
                &&& post.len() == ctx@.len() + 1
                &&& post.subrange(0, ctx@.len() as int) == ctx@
                &&& match post.last() {
                    crate::actor_system::context::Request::SendTo(name, env) => name@
                        == "pulseaudio"@ && env == crate::actor_system::messages::Envelope::Payload(
                        AppMessage::PulseAudio(PulseAudioAction::RequestPulseAudioState),
                    ),
                    _ => false,
                }
            }),
    {
        self.state = RSState::new(ctx);
        self.state.redraw.resize = true;
        self.state.post_pa(PulseAudioAction::RequestPulseAudioState);
    }

    /// Handles one mailbox message: dispatches it to the matching
    /// handler, then reports whether the screen needs repainting and
    /// whether the system should quit.
    pub fn handle_message(&mut self, msg: AppMessage) -> (r: EventOutcome)
        requires
            old(self).state.wf(),
            old(self).state.ctx is Some,
        ensures
            final(self).state.wf(),
            r.needs_redraw == final(self).state.redraw.spec_anything(),
            msg matches AppMessage::UserAction(a) && a == UserAction::RequestQuit ==> r.quit,
            msg matches AppMessage::Status(s) && s
                == crate::models::actions::PAStatus::ConnectToPAFailed ==> r.quit,
            msg matches AppMessage::Resize(_) ==> final(self).state.redraw.resize
                && !r.quit,
            msg matches AppMessage::Update(EntryUpdate::Update(ident, _)) ==> final(self).state.entries@.contains(ident) && !r.quit,
            msg matches AppMessage::UserInput(_) ==> final(self).state.ui_mode == old(self).state.ui_mode && final(self).state.entries == old(self).state.entries && !r.quit,
    {
        let mut quit = false;
        match msg {
            AppMessage::Update(update) => {
                pulseaudio_info::handle(update, &mut self.state);
            },
            AppMessage::Status(status) => {
                quit = pulseaudio_status::handle(&status, &mut self.state);
            },
            AppMessage::UserInput(ev) => {
                user_input::handle(ev, &mut self.state);
            },
            AppMessage::UserAction(action) => {
                quit = user_action::handle(&action, &mut self.state);
            },
            AppMessage::Resize(_) => {
                self.state.redraw.resize = true;
            },
            AppMessage::PulseAudio(_) => {},
        }
        let needs_redraw = self.state.redraw.anything();
        EventOutcome { needs_redraw, quit }
    }
}

} // verus!
