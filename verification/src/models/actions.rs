//! The messages the actors exchange: user actions, audio-server
//! commands, state updates and status reports, united in one closed
//! payload type for the runtime's mailboxes.

use vstd::prelude::*;

use crate::models::entry::{ChannelVolumes, Entry, EntryIdentifier};
use crate::models::input_event::InputEvent;
use crate::models::page_type::PageType;

verus! {

/// An action the user asked for, after key-binding interpretation.
#[derive(Clone, Copy, Debug)]
pub enum UserAction {
    MoveUp(u16),
    MoveDown(u16),
    MoveLeft,
    MoveRight,
    SetSelected(usize),
    ChangePage(PageType),
    CyclePages(i8),
    RequestMute(Option<EntryIdentifier>),
    RequestChangeVolume(i16, Option<EntryIdentifier>),
    InputVolumeValue,
    ConfirmInputVolume,
    OpenContextMenu(Option<EntryIdentifier>),
    CloseContextMenu,
    Confirm,
    Hide(Option<EntryIdentifier>),
    ShowHelp,
    RequestQuit,
}

/// A command for the audio-server back end.
#[derive(Clone, Debug)]
pub enum PulseAudioAction {
    /// Ask the server for its whole current state.
    RequestPulseAudioState,
    /// Mute or unmute an object.
    MuteEntry(EntryIdentifier, bool),
    /// Move a stream to another sink or source.
    MoveEntryToParent(EntryIdentifier, EntryIdentifier),
    /// Switch a card to the named profile.
    ChangeCardProfile(EntryIdentifier, String),
    /// Set an object's per-channel volume.
    SetVolume(EntryIdentifier, ChannelVolumes),
    /// Suspend or resume a device.
    SetSuspend(EntryIdentifier, bool),
    /// Terminate a stream.
    KillEntry(EntryIdentifier),
    /// Start or replace the peak monitors for the given objects.
    CreateMonitors(Vec<EntryIdentifier>),
    /// Disconnect from the server and stop the back end.
    Shutdown,
}

/// A change of one audio object, as reported by the server.
#[derive(Clone, Debug)]
pub enum EntryUpdate {
    /// The object appeared or changed; here is its new state.
    Update(EntryIdentifier, Entry),
    /// The object disappeared.
    Remove(EntryIdentifier),
}

/// The state of the audio-server connection.
#[derive(Clone, Copy, Debug, PartialEq, Eq, Structural)]
pub enum PAStatus {
    /// The connection is up and the state has been read.
    ConnectedToPA,
    /// The connection is down; a reconnect is due in the given number
    /// of seconds.
    RetryIn(u64),
    /// Connecting to the server failed for good.
    ConnectToPAFailed,
}

/// A request to recompute the layout after the terminal was resized.
#[derive(Clone, Copy, Debug, PartialEq, Eq, Structural)]
pub struct ResizeScreen {}

impl ResizeScreen {
    pub fn new() -> (r: ResizeScreen)
        ensures
            r == (ResizeScreen {  }),
    {
        ResizeScreen {  }
    }
}

/// Everything a mailbox of this application can carry.
#[derive(Clone, Debug)]
pub enum AppMessage {
    /// A command for the audio-server back end.
    PulseAudio(PulseAudioAction),
    /// An object update from the server.
    Update(EntryUpdate),
    /// A connection status report from the server.
    Status(PAStatus),
    /// A raw input event from the terminal.
    UserInput(InputEvent),
    /// An interpreted user action.
    UserAction(UserAction),
    /// The terminal was resized.
    Resize(ResizeScreen),
}

} // verus!
