//! The per-entry context menu: which options an entry offers, and what
//! confirming one of them does.

use vstd::prelude::*;
use vstd::string::StringExecFns;

use crate::actor_system::context::{Ctx, Request};
use crate::actor_system::messages::Envelope;
use crate::models::actions::{AppMessage, PulseAudioAction};
use crate::models::entry::{Entry, EntryIdentifier, EntryKind, EntryType};

verus! {

/// One thing a context menu can do to its entry.
#[derive(Clone, Copy, Debug, PartialEq, Eq, Structural)]
pub enum ContextMenuOption {
    Mute,
    Unmute,
    Move,
    Kill,
    Suspend,
    Resume,
    /// Switch the card to the profile at this index.
    SetProfile(usize),
}

/// What confirming a menu option asks the event loop to do next.
#[derive(Clone, Copy, Debug, PartialEq, Eq, Structural)]
pub enum ContextMenuEffect {
    /// The option was handled here; close the menu.
    Nothing,
    /// Enter the move-entry mode for this entry.
    MoveEntry,
}

/// One line of a context menu: its action and the text shown for it.
#[derive(Clone, Debug)]
pub struct ContextMenuItem {
    pub action: ContextMenuOption,
    pub label: String,
}

/// The options a context menu offers for an entry.
pub open spec fn spec_menu_actions(e: Entry) -> Seq<ContextMenuOption> {
    match e.entry_kind {
        EntryKind::PlayEntry(p) => {
            let toggle = if p.mute {
                ContextMenuOption::Unmute
            } else {
                ContextMenuOption::Mute
            };
            if e.entry_ident.entry_type == EntryType::SinkInput || e.entry_ident.entry_type
                == EntryType::SourceOutput {
                seq![toggle, ContextMenuOption::Move, ContextMenuOption::Kill]
            } else {
                seq![
                    toggle,
                    if p.suspended {
                        ContextMenuOption::Resume
                    } else {
                        ContextMenuOption::Suspend
                    },
                ]
            }
        },
        EntryKind::CardEntry(c) => Seq::new(
            c.profiles@.len(),
            |i: int| ContextMenuOption::SetProfile(i as usize),
        ),
    }
}

/// A context menu over one entry, with a selection cursor and a
/// horizontal scroll position for long labels.
#[derive(Clone, Debug)]
pub struct ContextMenu {
    /// The menu lines, top to bottom.
    pub items: Vec<ContextMenuItem>,
    /// The selection cursor.
    pub selected: usize,
    /// How far the labels are scrolled to the left.
    pub horizontal_scroll: usize,
}

impl ContextMenu {
    /// The cursor stays on a line, except that it rests at zero on an
    /// empty menu.
    pub open spec fn wf(&self) -> bool {
        if self.items@.len() == 0 {
            self.selected_spec() == 0
        } else {
            self.selected_spec() < self.items@.len()
        }
    }

    /// The selection cursor, as a mathematical integer.
    pub open spec fn selected_spec(&self) -> int {
        self.selected as int
    }

    /// The menu for `entry`: its applicable options, cursor on the
    /// first line, labels unscrolled.  A card's lines carry its
    /// profile names.
    pub fn new(entry: &Entry) -> (r: ContextMenu)
        ensures
            r.wf(),
            r.selected_spec() == 0,
            r.horizontal_scroll == 0,
            r.items@.map_values(|it: ContextMenuItem| it.action) == spec_menu_actions(*entry),
            entry.entry_kind matches EntryKind::CardEntry(c) ==> r.items@.len()
                == c.profiles@.len() && forall|i: int|
                0 <= i < r.items@.len() ==> (#[trigger] r.items@[i]).label@ == c.profiles@[i]@,
    {
        let mut items: Vec<ContextMenuItem> = Vec::new();
        match &entry.entry_kind {
            EntryKind::PlayEntry(p) => {
                if p.mute {
                    items.push(
                        ContextMenuItem {
                            action: ContextMenuOption::Unmute,
                            label: String::from_str("Unmute"),
                        },
                    );
                } else {
                    items.push(
                        ContextMenuItem {
                            action: ContextMenuOption::Mute,
                            label: String::from_str("Mute"),
                        },
                    );
                }
                if entry.entry_ident.entry_type == EntryType::SinkInput
                    || entry.entry_ident.entry_type == EntryType::SourceOutput {
                    items.push(
                        ContextMenuItem {
                            action: ContextMenuOption::Move,
                            label: String::from_str("Move to another device"),
                        },
                    );
                    items.push(
                        ContextMenuItem {
                            action: ContextMenuOption::Kill,
                            label: String::from_str("Kill"),
                        },
                    );
                } else {
                    if p.suspended {
                        items.push(
                            ContextMenuItem {
                                action: ContextMenuOption::Resume,
                                label: String::from_str("Resume"),
                            },
                        );
                    } else {
                        items.push(
                            ContextMenuItem {
                                action: ContextMenuOption::Suspend,
                                label: String::from_str("Suspend"),
                            },
                        );
                    }
                }
                proof {
                    assert(items@.map_values(|it: ContextMenuItem| it.action) =~= spec_menu_actions(
                        *entry,
                    ));
                }
            },
            EntryKind::CardEntry(c) => {
                let n = c.profiles.len();
                let mut i: usize = 0;
                while i < n
                    invariant
                        i <= n,
                        n == c.profiles@.len(),
                        items@.len() == i,
                        forall|k: int|
                            0 <= k < i ==> (#[trigger] items@[k]).action
                                == ContextMenuOption::SetProfile(k as usize) && items@[k].label@
                                == c.profiles@[k]@,
                    decreases n - i,
                {
                    let label = c.profiles[i].clone();
                    items.push(ContextMenuItem { action: ContextMenuOption::SetProfile(i), label });
                    i = i + 1;
                }
                proof {
                    assert(items@.map_values(|it: ContextMenuItem| it.action) =~= spec_menu_actions(
                        *entry,
                    ));
                }
            },
        }
        ContextMenu { items, selected: 0, horizontal_scroll: 0 }
    }

    /// Number of menu lines.
    pub fn len(&self) -> (r: usize)
        ensures
            r == self.items@.len(),
    {
        self.items.len()
    }

    /// The selection cursor.
    pub fn selected(&self) -> (r: usize)
        ensures
            r == self.selected_spec(),
    {
        self.selected
    }

    /// Moves the cursor up by `how_much`, stopping at the top.
    pub fn up(&mut self, how_much: usize)
        requires
            old(self).wf(),
        ensures
            final(self).wf(),
            final(self).items == old(self).items,
            final(self).horizontal_scroll == old(self).horizontal_scroll,
            final(self).selected_spec() == if old(self).selected_spec() >= how_much {
                old(self).selected_spec() - how_much
            } else {
                0int
            },
    {
        if self.selected >= how_much {
            self.selected = self.selected - how_much;
        } else {
            self.selected = 0;
        }
    }

    /// Moves the cursor down by `how_much`, stopping at the bottom.
    pub fn down(&mut self, how_much: usize)
        requires
            old(self).wf(),
        ensures
            final(self).wf(),
            final(self).items == old(self).items,
            final(self).horizontal_scroll == old(self).horizontal_scroll,
            old(self).items@.len() == 0 ==> final(self).selected_spec() == 0,
            old(self).items@.len() > 0 ==> final(self).selected_spec() == if old(self).selected_spec() + how_much < old(self).items@.len() {
                old(self).selected_spec() + how_much
            } else {
                old(self).items@.len() - 1
            },
    {
        if self.items.len() == 0 {
            return ;
        }
        let room = self.items.len() - 1 - self.selected;
        if how_much <= room {
            self.selected = self.selected + how_much;
        } else {
            self.selected = self.items.len() - 1;
        }
    }

    /// Puts the cursor at `index`, clamped to the menu.
    pub fn set_selected(&mut self, index: usize)
        ensures
            final(self).wf(),
            final(self).items == old(self).items,
            final(self).horizontal_scroll == old(self).horizontal_scroll,
            old(self).items@.len() == 0 ==> final(self).selected_spec() == 0,
            old(self).items@.len() > 0 ==> final(self).selected_spec() == if index < old(self).items@.len() {
                index as int
            } else {
                old(self).items@.len() - 1
            },
    {
        if self.items.len() == 0 {
            self.selected = 0;
        } else if index < self.items.len() {
            self.selected = index;
        } else {
            self.selected = self.items.len() - 1;
        }
    }

    /// The longest label length: the bound for horizontal scrolling.
    pub fn max_horizontal_scroll(&self) -> (r: usize)
        ensures
            r == spec_max_label_len(self.items@),
    {
        let mut best: usize = 0;
        let n = self.items.len();
        let mut i: usize = 0;
        while i < n
            invariant
                i <= n,
                n == self.items@.len(),
                best == spec_max_label_len(self.items@.subrange(0, i as int)),
            decreases n - i,
        {
            proof {
                assert(self.items@.subrange(0, i + 1).drop_last() =~= self.items@.subrange(
                    0,
                    i as int,
                ));
                assert(self.items@.subrange(0, i + 1).last() == self.items@[i as int]);
            }
            let l = self.items[i].label.as_str().unicode_len();
            if l > best {
                best = l;
            }
            i = i + 1;
        }
        proof {
            assert(self.items@.subrange(0, n as int) =~= self.items@);
        }
        best
    }

    /// Confirms the selected option for the entry `ident`: server
    /// commands go out through `ctx`, and the returned effect tells the
    /// event loop whether to enter the move-entry mode.
    pub fn resolve(&self, ident: EntryIdentifier, ctx: &mut Ctx<AppMessage>) -> (r:
        ContextMenuEffect)
        requires
            self.wf(),
            self.items@.len() > 0,
        ensures
            ({
                let action = self.items@[self.selected_spec()].action;
                &&& (r == ContextMenuEffect::MoveEntry <==> action == ContextMenuOption::Move)
                &&& (action == ContextMenuOption::Move ==> final(ctx)@ == old(ctx)@)
                &&& (action != ContextMenuOption::Move ==> final(ctx)@.len() == old(ctx)@.len() + 1
                    && final(ctx)@.subrange(0, old(ctx)@.len() as int) == old(ctx)@ && (final(ctx)@.last() matches Request::SendTo(name, env) && name@ == "pulseaudio"@ && (
                env matches Envelope::Payload(AppMessage::PulseAudio(cmd)) && spec_resolved_command(
                    *self,
                    ident,
                    cmd,
                ))))
            }),
    {
        let ghost pre = ctx@;
        let item = &self.items[self.selected];
        let r = match item.action {
            ContextMenuOption::Mute => {
                ctx.send_to(
                    String::from_str("pulseaudio"),
                    AppMessage::PulseAudio(PulseAudioAction::MuteEntry(ident, true)),
                );
                ContextMenuEffect::Nothing
            },
            ContextMenuOption::Unmute => {
                ctx.send_to(
                    String::from_str("pulseaudio"),
                    AppMessage::PulseAudio(PulseAudioAction::MuteEntry(ident, false)),
                );
                ContextMenuEffect::Nothing
            },
            ContextMenuOption::Move => ContextMenuEffect::MoveEntry,
            ContextMenuOption::Kill => {
                ctx.send_to(
                    String::from_str("pulseaudio"),
                    AppMessage::PulseAudio(PulseAudioAction::KillEntry(ident)),
                );
                ContextMenuEffect::Nothing
            },
            ContextMenuOption::Suspend => {
                ctx.send_to(
                    String::from_str("pulseaudio"),
                    AppMessage::PulseAudio(PulseAudioAction::SetSuspend(ident, true)),
                );
                ContextMenuEffect::Nothing
            },
            ContextMenuOption::Resume => {
                ctx.send_to(
                    String::from_str("pulseaudio"),
                    AppMessage::PulseAudio(PulseAudioAction::SetSuspend(ident, false)),
                );
                ContextMenuEffect::Nothing
            },
            ContextMenuOption::SetProfile(_) => {
                let profile = item.label.clone();
                ctx.send_to(
                    String::from_str("pulseaudio"),
                    AppMessage::PulseAudio(PulseAudioAction::ChangeCardProfile(ident, profile)),
                );
                ContextMenuEffect::Nothing
            },
        };
        proof {
            if self.items@[self.selected_spec()].action != ContextMenuOption::Move {
                assert(ctx@.subrange(0, pre.len() as int) =~= pre);
            }
        }
        r
    }
}

/// The server command that confirming the selected option sends.
pub open spec fn spec_resolved_command(
    menu: ContextMenu,
    ident: EntryIdentifier,
    cmd: PulseAudioAction,
) -> bool {
    let item = menu.items@[menu.selected_spec()];
    match item.action {
        ContextMenuOption::Mute => cmd == PulseAudioAction::MuteEntry(ident, true),
        ContextMenuOption::Unmute => cmd == PulseAudioAction::MuteEntry(ident, false),
        ContextMenuOption::Move => false,
        ContextMenuOption::Kill => cmd == PulseAudioAction::KillEntry(ident),
        ContextMenuOption::Suspend => cmd == PulseAudioAction::SetSuspend(ident, true),
        ContextMenuOption::Resume => cmd == PulseAudioAction::SetSuspend(ident, false),
        ContextMenuOption::SetProfile(_) => cmd matches PulseAudioAction::ChangeCardProfile(
            i,
            p,
        ) && i == ident && p@ == item.label@,
    }
}

/// The length of the longest label in a menu.
pub open spec fn spec_max_label_len(items: Seq<ContextMenuItem>) -> int
    decreases items.len(),
{
    if items.len() == 0 {
        0
    } else if items.last().label@.len() >= spec_max_label_len(items.drop_last()) {
        items.last().label@.len() as int
    } else {
        spec_max_label_len(items.drop_last())
    }
}

impl Default for ContextMenu {
    /// An empty menu.
    fn default() -> (r: ContextMenu)
        ensures
            r.wf(),
            r.items@.len() == 0,
            r.selected_spec() == 0,
            r.horizontal_scroll == 0,
    {
        ContextMenu { items: Vec::new(), selected: 0, horizontal_scroll: 0 }
    }
}

} // verus!
