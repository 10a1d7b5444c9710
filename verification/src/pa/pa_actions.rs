//! Planning of audio-server commands.
//!
//! Each routed [`PulseAudioAction`] maps to zero or more concrete
//! server operations, chosen by the target's entry type.  The functions
//! here make that choice; the host performs the operations against the
//! real server connection.

use vstd::prelude::*;

use crate::models::actions::PulseAudioAction;
use crate::models::entry::{ChannelVolumes, EntryIdentifier, EntryType};

verus! {

/// One concrete operation against the audio server, addressed by the
/// server-side object index.
#[derive(Debug)]
pub enum PaOp {
    /// Read the server's whole current state and start update
    /// subscriptions.
    RequestCurrentState,
    SetSinkVolume(u32, ChannelVolumes),
    SetSinkInputVolume(u32, ChannelVolumes),
    SetSourceVolume(u32, ChannelVolumes),
    SetSourceOutputVolume(u32, ChannelVolumes),
    SetSinkMute(u32, bool),
    SetSinkInputMute(u32, bool),
    SetSourceMute(u32, bool),
    SetSourceOutputMute(u32, bool),
    SuspendSink(u32, bool),
    SuspendSource(u32, bool),
    /// Move a stream to another device; the server confirms both
    /// objects afterwards, so both indices are re-read.
    MoveSinkInput(u32, u32),
    MoveSourceOutput(u32, u32),
    KillSinkInput(u32),
    KillSourceOutput(u32),
    SetCardProfile(u32, String),
    /// Replace the peak monitors with ones for these objects.
    CreateMonitors(Vec<EntryIdentifier>),
}

/// The volume operation a set-volume command maps to, by entry type.
pub fn set_volume(ident: EntryIdentifier, vol: ChannelVolumes) -> (r: Option<PaOp>)
    ensures
        match ident.entry_type {
            EntryType::Sink => r matches Option::Some(op) && op matches PaOp::SetSinkVolume(i, v)
                && i == ident.index && v@ == vol@,
            EntryType::SinkInput => r matches Option::Some(op) && op matches
                PaOp::SetSinkInputVolume(i, v) && i == ident.index && v@ == vol@,
            EntryType::Source => r matches Option::Some(op) && op matches PaOp::SetSourceVolume(
                i,
                v,
            ) && i == ident.index && v@ == vol@,
            EntryType::SourceOutput => r matches Option::Some(op) && op matches
                PaOp::SetSourceOutputVolume(i, v) && i == ident.index && v@ == vol@,
            EntryType::Card => r is None,
        },
{
    match ident.entry_type {
        EntryType::Sink => Option::Some(PaOp::SetSinkVolume(ident.index, vol)),
        EntryType::SinkInput => Option::Some(PaOp::SetSinkInputVolume(ident.index, vol)),
        EntryType::Source => Option::Some(PaOp::SetSourceVolume(ident.index, vol)),
        EntryType::SourceOutput => Option::Some(PaOp::SetSourceOutputVolume(ident.index, vol)),
        EntryType::Card => Option::None,
    }
}

/// The mute operation a mute command maps to, by entry type.
pub fn set_mute(ident: EntryIdentifier, mute: bool) -> (r: Option<PaOp>)
    ensures
        match ident.entry_type {
            EntryType::Sink => r == Option::Some(PaOp::SetSinkMute(ident.index, mute)),
            EntryType::SinkInput => r == Option::Some(PaOp::SetSinkInputMute(ident.index, mute)),
            EntryType::Source => r == Option::Some(PaOp::SetSourceMute(ident.index, mute)),
            EntryType::SourceOutput => r == Option::Some(
                PaOp::SetSourceOutputMute(ident.index, mute),
            ),
            EntryType::Card => r is None,
        },
{
    match ident.entry_type {
        EntryType::Sink => Option::Some(PaOp::SetSinkMute(ident.index, mute)),
        EntryType::SinkInput => Option::Some(PaOp::SetSinkInputMute(ident.index, mute)),
        EntryType::Source => Option::Some(PaOp::SetSourceMute(ident.index, mute)),
        EntryType::SourceOutput => Option::Some(PaOp::SetSourceOutputMute(ident.index, mute)),
        EntryType::Card => Option::None,
    }
}

/// The suspend operation a suspend command maps to: only devices can be
/// suspended.
pub fn set_suspend(ident: EntryIdentifier, suspend: bool) -> (r: Option<PaOp>)
    ensures
        match ident.entry_type {
            EntryType::Sink => r == Option::Some(PaOp::SuspendSink(ident.index, suspend)),
            EntryType::Source => r == Option::Some(PaOp::SuspendSource(ident.index, suspend)),
            _ => r is None,
        },
{
    match ident.entry_type {
        EntryType::Sink => Option::Some(PaOp::SuspendSink(ident.index, suspend)),
        EntryType::Source => Option::Some(PaOp::SuspendSource(ident.index, suspend)),
        _ => Option::None,
    }
}

/// The kill operation a kill command maps to: only streams can be
/// killed.
pub fn kill_entry(ident: EntryIdentifier) -> (r: Option<PaOp>)
    ensures
        match ident.entry_type {
            EntryType::SinkInput => r == Option::Some(PaOp::KillSinkInput(ident.index)),
            EntryType::SourceOutput => r == Option::Some(PaOp::KillSourceOutput(ident.index)),
            _ => r is None,
        },
{
    match ident.entry_type {
        EntryType::SinkInput => Option::Some(PaOp::KillSinkInput(ident.index)),
        EntryType::SourceOutput => Option::Some(PaOp::KillSourceOutput(ident.index)),
        _ => Option::None,
    }
}

/// The profile switch a card-profile command maps to: only cards have
/// profiles.
pub fn change_card_profile(ident: EntryIdentifier, profile: String) -> (r: Option<PaOp>)
    ensures
        ident.entry_type == EntryType::Card ==> match r {
            Option::Some(op) => match op {
                PaOp::SetCardProfile(i, p) => i == ident.index && p@ == profile@,
                _ => false,
            },
            Option::None => false,
        },
        ident.entry_type != EntryType::Card ==> r is None,
{
    if ident.entry_type == EntryType::Card {
        Option::Some(PaOp::SetCardProfile(ident.index, profile))
    } else {
        Option::None
    }
}

/// The move operation a move command maps to: only streams can be
/// moved, each to its matching device kind.
pub fn move_entry_to_parent(ident: EntryIdentifier, parent: EntryIdentifier) -> (r: Option<PaOp>)
    ensures
        match ident.entry_type {
            EntryType::SinkInput => r == Option::Some(
                PaOp::MoveSinkInput(ident.index, parent.index),
            ),
            EntryType::SourceOutput => r == Option::Some(
                PaOp::MoveSourceOutput(ident.index, parent.index),
            ),
            _ => r is None,
        },
{
    match ident.entry_type {
        EntryType::SinkInput => Option::Some(PaOp::MoveSinkInput(ident.index, parent.index)),
        EntryType::SourceOutput => Option::Some(
            PaOp::MoveSourceOutput(ident.index, parent.index),
        ),
        _ => Option::None,
    }
}

/// Plans one routed command.  `None` means the back end should
/// disconnect and stop; otherwise the (possibly empty) operation list
/// is performed in order.
pub fn handle_command(cmd: PulseAudioAction) -> (r: Option<Vec<PaOp>>)
    ensures
        (cmd matches PulseAudioAction::Shutdown) == (r is None),
        cmd matches PulseAudioAction::RequestPulseAudioState ==> r matches Option::Some(ops)
            && ops@.len() == 1 && ops@[0] is RequestCurrentState,
        cmd matches PulseAudioAction::MuteEntry(ident, mute) ==> r matches Option::Some(ops)
            && ops@ == optional_op(spec_mute_op(ident, mute)),
        cmd matches PulseAudioAction::SetSuspend(ident, suspend) ==> r matches Option::Some(ops)
            && ops@ == optional_op(spec_suspend_op(ident, suspend)),
        cmd matches PulseAudioAction::KillEntry(ident) ==> r matches Option::Some(ops) && ops@
            == optional_op(spec_kill_op(ident)),
        cmd matches PulseAudioAction::MoveEntryToParent(ident, parent) ==> r matches Option::Some(
            ops,
        ) && ops@ == optional_op(spec_move_op(ident, parent)),
        cmd matches PulseAudioAction::CreateMonitors(objects) ==> r matches Option::Some(ops)
            && ops@.len() == 1 && (ops@[0] matches PaOp::CreateMonitors(o) && o == objects),
{
    match cmd {
        PulseAudioAction::Shutdown => Option::None,
        PulseAudioAction::RequestPulseAudioState => {
            let mut ops: Vec<PaOp> = Vec::new();
            ops.push(PaOp::RequestCurrentState);
            Option::Some(ops)
        },
        PulseAudioAction::MuteEntry(ident, mute) => {
            Option::Some(push_optional(set_mute(ident, mute)))
        },
        PulseAudioAction::SetVolume(ident, vol) => {
            Option::Some(push_optional(set_volume(ident, vol)))
        },
        PulseAudioAction::SetSuspend(ident, suspend) => {
            Option::Some(push_optional(set_suspend(ident, suspend)))
        },
        PulseAudioAction::KillEntry(ident) => Option::Some(push_optional(kill_entry(ident))),
        PulseAudioAction::MoveEntryToParent(ident, parent) => {
            Option::Some(push_optional(move_entry_to_parent(ident, parent)))
        },
        PulseAudioAction::ChangeCardProfile(ident, profile) => {
            Option::Some(push_optional(change_card_profile(ident, profile)))
        },
        PulseAudioAction::CreateMonitors(objects) => {
            let mut ops: Vec<PaOp> = Vec::new();
            ops.push(PaOp::CreateMonitors(objects));
            Option::Some(ops)
        },
    }
}

/// A zero- or one-element sequence from an optional operation.
pub open spec fn optional_op(op: Option<PaOp>) -> Seq<PaOp> {
    match op {
        Option::Some(o) => seq![o],
        Option::None => Seq::empty(),
    }
}

/// The mute operation, as a specification value.
pub open spec fn spec_mute_op(ident: EntryIdentifier, mute: bool) -> Option<PaOp> {
    match ident.entry_type {
        EntryType::Sink => Option::Some(PaOp::SetSinkMute(ident.index, mute)),
        EntryType::SinkInput => Option::Some(PaOp::SetSinkInputMute(ident.index, mute)),
        EntryType::Source => Option::Some(PaOp::SetSourceMute(ident.index, mute)),
        EntryType::SourceOutput => Option::Some(PaOp::SetSourceOutputMute(ident.index, mute)),
        EntryType::Card => Option::None,
    }
}

/// The suspend operation, as a specification value.
pub open spec fn spec_suspend_op(ident: EntryIdentifier, suspend: bool) -> Option<PaOp> {
    match ident.entry_type {
        EntryType::Sink => Option::Some(PaOp::SuspendSink(ident.index, suspend)),
        EntryType::Source => Option::Some(PaOp::SuspendSource(ident.index, suspend)),
        _ => Option::None,
    }
}

/// The kill operation, as a specification value.
pub open spec fn spec_kill_op(ident: EntryIdentifier) -> Option<PaOp> {
    match ident.entry_type {
        EntryType::SinkInput => Option::Some(PaOp::KillSinkInput(ident.index)),
        EntryType::SourceOutput => Option::Some(PaOp::KillSourceOutput(ident.index)),
        _ => Option::None,
    }
}

/// The move operation, as a specification value.
pub open spec fn spec_move_op(ident: EntryIdentifier, parent: EntryIdentifier) -> Option<PaOp> {
    match ident.entry_type {
        EntryType::SinkInput => Option::Some(PaOp::MoveSinkInput(ident.index, parent.index)),
        EntryType::SourceOutput => Option::Some(
            PaOp::MoveSourceOutput(ident.index, parent.index),
        ),
        _ => Option::None,
    }
}

/// A vector holding the operation, if there is one.
fn push_optional(op: Option<PaOp>) -> (r: Vec<PaOp>)
    ensures
        r@ == optional_op(op),
{
    let mut ops: Vec<PaOp> = Vec::new();
    match op {
        Option::Some(o) => {
            ops.push(o);
            proof {
                assert(ops@ =~= optional_op(op));
            }
        },
        Option::None => {
            proof {
                assert(ops@ =~= optional_op(op));
            }
        },
    }
    ops
}

} // verus!
