//! The event loop's whole state: the known audio objects, the visible
//! page, the interaction mode, the overlay widgets, and the pending
//! repaint set, together with every state transition the handlers use.

use vstd::prelude::*;
use vstd::string::StringExecFns;

use crate::actor_system::context::{Ctx, Request};
use crate::actor_system::messages::Envelope;
use crate::models::actions::{AppMessage, PulseAudioAction};
use crate::models::context_menus::{ContextMenu, ContextMenuEffect};
use crate::models::entry::{
    spec_max_volume, ChannelVolumes, Entries, Entry, EntryIdentifier, EntryKind, EntryType,
};
use crate::models::page_entries::PageEntries;
use crate::models::page_type::PageType;
use crate::models::redraw::Redraw;
use crate::models::ui_mode::UIMode;
use crate::multimap::MultiMap;
use crate::ui::widgets::help::HelpWidget;
use crate::ui::widgets::volume_input::VolumeInputWidget;
use crate::ui::widgets::warning_text::WarningTextWidget;
use crate::ui::UI;
use crate::util::{
    percent_to_volume, spec_parse_u16, spec_percent_to_volume, spec_volume_to_percent,
    volume_to_percent,
};

verus! {

/// One more request on a routing handle's queue, addressed to the
/// audio-server actor, carrying the given command.
pub open spec fn spec_sends_pa(
    pre: Seq<Request<AppMessage>>,
    post: Seq<Request<AppMessage>>,
    cmd: PulseAudioAction,
) -> bool {
    &&& post.len() == pre.len() + 1
    &&& post.subrange(0, pre.len() as int) == pre
    &&& post.last() matches Request::SendTo(name, env) && name@ == "pulseaudio"@ && env
        == Envelope::Payload(AppMessage::PulseAudio(cmd))
}

/// The identifiers an entry store shows on a page: entries of the
/// page's device or stream type, in store order, hidden ones skipped.
pub open spec fn spec_page_idents(
    rows: Seq<Entry>,
    parent: EntryType,
    child: EntryType,
) -> Seq<EntryIdentifier>
    decreases rows.len(),
{
    if rows.len() == 0 {
        Seq::empty()
    } else {
        let rest = spec_page_idents(rows.drop_last(), parent, child);
        let e = rows.last();
        if (e.entry_ident.entry_type == parent || e.entry_ident.entry_type == child)
            && !e.hidden {
            rest.push(e.entry_ident)
        } else {
            rest
        }
    }
}

/// The whole state of the event loop actor.
#[derive(Debug)]
pub struct RSState {
    /// The page currently shown.
    pub current_page: PageType,
    /// Every known audio object.
    pub entries: Entries,
    /// The identifiers shown on the current page, with the cursor.
    pub page_entries: PageEntries,
    /// The open context menu (meaningful in the `ContextMenu` mode).
    pub context_menu: ContextMenu,
    /// What the user is interacting with.
    pub ui_mode: UIMode,
    /// The pending repaint requests.
    pub redraw: Redraw,
    /// The help overlay's scroll state.
    pub help: HelpWidget,
    /// The warning banner shown while the server connection is down.
    pub warning_text: WarningTextWidget,
    /// The exact-volume input box.
    pub input_exact_volume: VolumeInputWidget,
    /// The screen buffer.
    pub ui: UI,
    /// The key-binding table: input events to user actions.
    pub bindings: MultiMap,
    /// The routing handle used to reach the other actors.
    pub ctx: Option<Ctx<AppMessage>>,
}

impl RSState {
    /// The state invariant: every container is well-formed.
    pub open spec fn wf(&self) -> bool {
        &&& self.entries@.wf()
        &&& self.page_entries.wf()
        &&& self.context_menu.wf()
        &&& self.ui.buffer.wf()
        &&& self.bindings.wf()
    }

    /// All fields in their starting value: empty stores, the output
    /// page, the normal mode, nothing to repaint.
    pub open spec fn spec_fresh(&self) -> bool {
        &&& self.current_page == PageType::Output
        &&& self.entries@.rows.len() == 0
        &&& self.page_entries.entries@.len() == 0
        &&& self.page_entries.selected_spec() == 0
        &&& self.context_menu.items@.len() == 0
        &&& self.ui_mode == UIMode::Normal
        &&& self.help.scroll == 0
        &&& self.warning_text.text@ == Seq::<char>::empty()
        &&& self.input_exact_volume.value@ == Seq::<char>::empty()
        &&& self.input_exact_volume.cursor == 0
    }

    /// A fresh state bound to a routing handle.
    pub fn new(ctx: Ctx<AppMessage>) -> (r: RSState)
        ensures
            r.wf(),
            r.spec_fresh(),
            !r.redraw.spec_anything(),
            r.ctx == Option::Some(ctx),
    {
        RSState {
            current_page: PageType::Output,
            entries: Entries::new(),
            page_entries: PageEntries::new(),
            context_menu: ContextMenu::default(),
            ui_mode: UIMode::Normal,
            redraw: Redraw::default(),
            help: HelpWidget::default(),
            warning_text: WarningTextWidget { text: String::new() },
            input_exact_volume: VolumeInputWidget::default(),
            ui: UI::default(),
            bindings: MultiMap::new(),
            ctx: Option::Some(ctx),
        }
    }

    /// Installs the key-binding table read from the configuration.
    pub fn set_bindings(&mut self, bindings: MultiMap)
        requires
            bindings.wf(),
        ensures
            *final(self) == (RSState { bindings, ..*old(self) }),
    {
        self.bindings = bindings;
    }

    /// The routing handle.  The state must be bound to one.
    pub fn ctx(&self) -> (r: &Ctx<AppMessage>)
        requires
            self.ctx is Some,
        ensures
            *r == self.ctx.unwrap(),
    {
        match &self.ctx {
            Option::Some(c) => c,
            Option::None => unreached(),
        }
    }

    /// Appends a command for the audio-server actor to the routing
    /// handle.
    pub(crate) fn post_pa(&mut self, cmd: PulseAudioAction)
        requires
            old(self).ctx is Some,
        ensures
            final(self).ctx is Some,
            spec_sends_pa(old(self).ctx.unwrap()@, final(self).ctx.unwrap()@, cmd),
            final(self).current_page == old(self).current_page,
            final(self).entries == old(self).entries,
            final(self).page_entries == old(self).page_entries,
            final(self).context_menu == old(self).context_menu,
            final(self).ui_mode == old(self).ui_mode,
            final(self).redraw == old(self).redraw,
            final(self).help == old(self).help,
            final(self).warning_text == old(self).warning_text,
            final(self).input_exact_volume == old(self).input_exact_volume,
            final(self).ui == old(self).ui,
            final(self).bindings == old(self).bindings,
    {
        let ghost pre = self.ctx.unwrap()@;
        match &mut self.ctx {
            Option::Some(c) => {
                c.send_to(String::from_str("pulseaudio"), AppMessage::PulseAudio(cmd));
                proof {
                    assert(self.ctx.unwrap()@.subrange(0, pre.len() as int) =~= pre);
                }
            },
            Option::None => {},
        }
    }

    /// Drops everything known and starts over: asks the audio-server
    /// actor to drop its peak monitors, resets every field, and
    /// requests a full repaint.
    pub fn reset(&mut self)
        requires
            old(self).wf(),
            old(self).ctx is Some,
        ensures
            final(self).wf(),
            final(self).spec_fresh(),
            final(self).redraw.resize,
            final(self).bindings == old(self).bindings,
            final(self).ctx is Some,
            ({
                let pre = old(self).ctx.unwrap()@;
                let post = final(self).ctx.unwrap()@;
                &&& post.len() == pre.len() + 1
                &&& post.subrange(0, pre.len() as int) == pre
                &&& post.last() matches Request::SendTo(name, env) && name@ == "pulseaudio"@ && (
                env matches Envelope::Payload(
                    AppMessage::PulseAudio(PulseAudioAction::CreateMonitors(v)),
                ) && v@.len() == 0)
            }),
    {
        let monitors: Vec<EntryIdentifier> = Vec::new();
        self.post_pa(PulseAudioAction::CreateMonitors(monitors));
        let ctx = self.ctx.take();
        let mut bindings = MultiMap::new();
        core::mem::swap(&mut bindings, &mut self.bindings);
        match ctx {
            Option::Some(c) => {
                let mut fresh = RSState::new(c);
                fresh.bindings = bindings;
                *self = fresh;
            },
            Option::None => {},
        }
        self.redraw.resize = true;
    }


    /// The device and stream entry kinds of a page.
    pub open spec fn spec_page_types(p: PageType) -> (EntryType, EntryType) {
        match p {
            PageType::Output => (EntryType::Sink, EntryType::SinkInput),
            PageType::Input => (EntryType::Source, EntryType::SourceOutput),
            PageType::Cards => (EntryType::Card, EntryType::Card),
        }
    }

    /// What the current page shows for an entry store.
    pub open spec fn spec_current_page_idents(page: PageType, rows: Seq<Entry>) -> Seq<
        EntryIdentifier,
    > {
        spec_page_idents(rows, Self::spec_page_types(page).0, Self::spec_page_types(page).1)
    }

    /// Recomputes the current page's entry list from the entry store,
    /// keeping the cursor in range and flagging a repaint when the list
    /// changed.
    fn update_page_entries(&mut self)
        requires
            old(self).wf(),
        ensures
            final(self).wf(),
            final(self).page_entries.entries@ == Self::spec_current_page_idents(
                old(self).current_page,
                old(self).entries@.rows,
            ),
            ({
                let idents = Self::spec_current_page_idents(
                    old(self).current_page,
                    old(self).entries@.rows,
                );
                &&& (idents.len() == 0 ==> final(self).page_entries.selected_spec() == 0)
                &&& (idents.len() > 0 ==> final(self).page_entries.selected_spec() == if old(self).page_entries.selected_spec() < idents.len() {
                    old(self).page_entries.selected_spec()
                } else {
                    idents.len() - 1
                })
                &&& final(self).redraw == (Redraw {
                    entries: old(self).redraw.entries || idents != old(self).page_entries.entries@,
                    ..old(self).redraw
                })
            }),
            final(self).current_page == old(self).current_page,
            final(self).entries == old(self).entries,
            final(self).context_menu == old(self).context_menu,
            final(self).ui_mode == old(self).ui_mode,
            final(self).help == old(self).help,
            final(self).warning_text == old(self).warning_text,
            final(self).input_exact_volume == old(self).input_exact_volume,
            final(self).ui == old(self).ui,
            final(self).bindings == old(self).bindings,
            final(self).ctx == old(self).ctx,
    {
        let (parent, child) = self.current_page.parent_child_types();
        let n = self.entries.len();
        let mut idents: Vec<EntryIdentifier> = Vec::new();
        let mut i: usize = 0;
        while i < n
            invariant
                i <= n,
                n == self.entries@.rows.len(),
                idents@ == spec_page_idents(
                    self.entries@.rows.subrange(0, i as int),
                    parent,
                    child,
                ),
                (parent, child) == Self::spec_page_types(self.current_page),
            decreases n - i,
        {
            proof {
                assert(self.entries@.rows.subrange(0, i + 1).drop_last() =~= self.entries@
                    .rows.subrange(0, i as int));
                assert(self.entries@.rows.subrange(0, i + 1).last() == self.entries@.rows[
                    i as int]);
            }
            let e = self.entries.row(i);
            if (e.entry_ident.entry_type == parent || e.entry_ident.entry_type == child)
                && !e.hidden {
                idents.push(e.entry_ident);
            }
            i = i + 1;
        }
        proof {
            assert(self.entries@.rows.subrange(0, n as int) =~= self.entries@.rows);
        }
        let changed = !idents_equal(&idents, &self.page_entries.entries);
        if changed {
            self.redraw.entries = true;
        }
        self.page_entries.set(idents);
    }

    /// Forgets an entry that disappeared from the server; if it was on
    /// the current page the page is recomputed, and an open context
    /// menu is closed.
    pub fn remove_entry(&mut self, ident: &EntryIdentifier)
        requires
            old(self).wf(),
        ensures
            final(self).wf(),
            old(self).entries@.contains(*ident) ==> final(self).entries@.rows == old(self).entries@.rows.remove(old(self).entries@.position(*ident)),
            !old(self).entries@.contains(*ident) ==> final(self).entries@ == old(self).entries@,
            (exists|i: int|
                0 <= i < old(self).page_entries.entries@.len() && old(self).page_entries.entries@[i] == *ident) ==> final(self).page_entries.entries@
                == Self::spec_current_page_idents(
                old(self).current_page,
                final(self).entries@.rows,
            ),
            final(self).ui_mode == if old(self).ui_mode == UIMode::ContextMenu {
                UIMode::Normal
            } else {
                old(self).ui_mode
            },
            old(self).ui_mode == UIMode::ContextMenu ==> final(self).redraw.resize,
            final(self).current_page == old(self).current_page,
            final(self).ctx == old(self).ctx,
    {
        self.entries.remove(ident);
        match self.page_entries.ident_position(*ident) {
            Option::Some(_) => {
                self.update_page_entries();
            },
            Option::None => {},
        }
        if self.ui_mode == UIMode::ContextMenu {
            self.change_ui_mode(UIMode::Normal);
        }
    }

    /// Takes an entry update from the server into the store: keeps the
    /// screen area of the version it replaces, recomputes the page, and
    /// flags the entry's row for repaint when it will look different.
    pub fn update_entry(&mut self, ident: &EntryIdentifier, entry: Entry)
        requires
            old(self).wf(),
            entry.entry_ident == *ident,
        ensures
            final(self).wf(),
            final(self).entries@.contains(*ident),
            ({
                let stored = final(self).entries@.stored(*ident).unwrap();
                &&& stored.name == entry.name
                &&& stored.is_selected == entry.is_selected
                &&& stored.hidden == entry.hidden
                &&& stored.entry_kind == entry.entry_kind
                &&& stored.area == match old(self).entries@.stored(*ident) {
                    Option::Some(o) => o.area,
                    Option::None => entry.area,
                }
            }),
            final(self).entries@.rows.len() == old(self).entries@.rows.len() + (
            if old(self).entries@.contains(*ident) {
                0int
            } else {
                1int
            }),
            final(self).page_entries.entries@ == Self::spec_current_page_idents(
                old(self).current_page,
                final(self).entries@.rows,
            ),
            final(self).current_page == old(self).current_page,
            final(self).ui_mode == old(self).ui_mode,
            final(self).ctx == old(self).ctx,
    {
        let mut entry = entry;
        if entry.needs_redraw(&self.entries) {
            match self.page_entries.ident_position(entry.entry_ident) {
                Option::Some(i) => {
                    self.redraw.affected_entries.insert(i);
                },
                Option::None => {},
            }
        }
        entry.inherit_area(&self.entries);
        let ghost ent = entry;
        self.entries.insert(*ident, entry);
        proof {
            assert(self.entries@.contains(*ident));
            assert(self.entries@.stored(*ident) == Option::Some(ent));
            if old(self).entries@.contains(*ident) {
                crate::models::entry::lemma_position_finds(old(self).entries@.rows, *ident, 0);
                assert(self.entries@.rows.len() == old(self).entries@.rows.len());
            }
        }
        let ghost entries_mid = self.entries;
        self.update_page_entries();
        proof {
            assert(self.entries == entries_mid);
        }
    }

    /// Flags the row under the cursor for repaint.
    fn selected_entry_needs_redraw(&mut self)
        ensures
            final(self).redraw.affected_entries@ == old(self).redraw.affected_entries@.insert(
                old(self).page_entries.selected_spec() as usize,
            ),
            final(self).redraw.entries == old(self).redraw.entries,
            final(self).redraw.peak_volume == old(self).redraw.peak_volume,
            final(self).redraw.resize == old(self).redraw.resize,
            final(self).redraw.context_menu == old(self).redraw.context_menu,
            final(self).current_page == old(self).current_page,
            final(self).entries == old(self).entries,
            final(self).page_entries == old(self).page_entries,
            final(self).context_menu == old(self).context_menu,
            final(self).ui_mode == old(self).ui_mode,
            final(self).help == old(self).help,
            final(self).warning_text == old(self).warning_text,
            final(self).input_exact_volume == old(self).input_exact_volume,
            final(self).ui == old(self).ui,
            final(self).bindings == old(self).bindings,
            final(self).ctx == old(self).ctx,
    {
        self.redraw.affected_entries.insert(self.page_entries.selected());
    }

    /// Which entry a request with an optional explicit target acts on:
    /// the named one, or the one under the cursor.
    pub open spec fn spec_target(&self, ident: Option<EntryIdentifier>) -> Option<
        EntryIdentifier,
    > {
        match ident {
            Option::Some(i) => Option::Some(i),
            Option::None => if self.page_entries.entries@.len() > 0 {
                Option::Some(self.page_entries.entries@[self.page_entries.selected_spec()])
            } else {
                Option::None
            },
        }
    }

    /// Moves the cursor (or scrolls the active overlay) down.
    pub fn move_down(&mut self, how_much: usize)
        requires
            old(self).wf(),
        ensures
            final(self).wf(),
            final(self).entries == old(self).entries,
            final(self).current_page == old(self).current_page,
            final(self).ctx == old(self).ctx,
            old(self).ui_mode == UIMode::Normal ==> {
                let moved = if old(self).page_entries.entries@.len() == 0 {
                    0int
                } else if old(self).page_entries.selected_spec() + how_much < old(
                    self,
                ).page_entries.entries@.len() {
                    old(self).page_entries.selected_spec() + how_much
                } else {
                    old(self).page_entries.entries@.len() - 1
                };
                let idents = Self::spec_current_page_idents(
                    old(self).current_page,
                    old(self).entries@.rows,
                );
                &&& final(self).ui_mode == UIMode::Normal
                &&& final(self).page_entries.entries@ == idents
                &&& final(self).page_entries.selected_spec() == (if idents.len() == 0 {
                    0int
                } else if moved < idents.len() {
                    moved
                } else {
                    idents.len() - 1
                })
                &&& (old(self).page_entries.entries@.len() > 0 ==> final(self).redraw.affected_entries@.contains(
                    old(self).page_entries.selected_spec() as usize,
                ))
            },
            old(self).ui_mode == UIMode::ContextMenu ==> {
                &&& final(self).ui_mode == UIMode::ContextMenu
                &&& final(self).context_menu.items == old(self).context_menu.items
                &&& final(self).context_menu.horizontal_scroll == 0
                &&& final(self).redraw.context_menu
                &&& (old(self).context_menu.items@.len() > 0 ==> final(self).context_menu.selected_spec() == if old(self).context_menu.selected_spec()
                    + how_much < old(self).context_menu.items@.len() {
                    old(self).context_menu.selected_spec() + how_much
                } else {
                    old(self).context_menu.items@.len() - 1
                })
            },
            old(self).ui_mode == UIMode::Help ==> {
                &&& final(self).ui_mode == UIMode::Help
                &&& final(self).redraw.context_menu
                &&& final(self).help.scroll == if old(self).help.scroll + how_much <= usize::MAX {
                    old(self).help.scroll + how_much
                } else {
                    usize::MAX as int
                }
            },
            (old(self).ui_mode == UIMode::InputVolumeValue || old(self).ui_mode matches
                UIMode::RetryIn(_)) ==> *final(self) == *old(self),
    {
        match self.ui_mode {
            UIMode::Normal => {
                self.selected_entry_needs_redraw();
                self.page_entries.down(how_much);
                self.selected_entry_needs_redraw();
                self.update_page_entries();
            },
            UIMode::ContextMenu => {
                self.context_menu.down(how_much);
                self.context_menu.horizontal_scroll = 0;
                self.redraw.context_menu = true;
            },
            UIMode::Help => {
                self.help.down(how_much);
                self.redraw.context_menu = true;
            },
            UIMode::MoveEntry(_, _) => {
                self.move_entry_step_down(how_much);
            },
            _ => {},
        }
    }

    /// Moves the cursor (or scrolls the active overlay) up.
    pub fn move_up(&mut self, how_much: usize)
        requires
            old(self).wf(),
        ensures
            final(self).wf(),
            final(self).entries == old(self).entries,
            final(self).current_page == old(self).current_page,
            final(self).ctx == old(self).ctx,
            old(self).ui_mode == UIMode::Normal ==> {
                let moved = if old(self).page_entries.selected_spec() >= how_much {
                    old(self).page_entries.selected_spec() - how_much
                } else {
                    0int
                };
                let idents = Self::spec_current_page_idents(
                    old(self).current_page,
                    old(self).entries@.rows,
                );
                &&& final(self).ui_mode == UIMode::Normal
                &&& final(self).page_entries.entries@ == idents
                &&& final(self).page_entries.selected_spec() == (if idents.len() == 0 {
                    0int
                } else if moved < idents.len() {
                    moved
                } else {
                    idents.len() - 1
                })
                &&& (old(self).page_entries.entries@.len() > 0 ==> final(self).redraw.affected_entries@.contains(
                    old(self).page_entries.selected_spec() as usize,
                ))
            },
            old(self).ui_mode == UIMode::ContextMenu ==> {
                &&& final(self).ui_mode == UIMode::ContextMenu
                &&& final(self).context_menu.items == old(self).context_menu.items
                &&& final(self).context_menu.horizontal_scroll == 0
                &&& final(self).redraw.context_menu
                &&& final(self).context_menu.selected_spec() == if old(self).context_menu.selected_spec() >= how_much {
                    old(self).context_menu.selected_spec() - how_much
                } else {
                    0int
                }
            },
            old(self).ui_mode == UIMode::Help ==> {
                &&& final(self).ui_mode == UIMode::Help
                &&& final(self).redraw.context_menu
                &&& final(self).help.scroll == if old(self).help.scroll >= how_much {
                    old(self).help.scroll - how_much
                } else {
                    0int
                }
            },
            (old(self).ui_mode == UIMode::InputVolumeValue || old(self).ui_mode matches
                UIMode::RetryIn(_)) ==> *final(self) == *old(self),
    {
        match self.ui_mode {
            UIMode::Normal => {
                self.selected_entry_needs_redraw();
                self.page_entries.up(how_much);
                self.selected_entry_needs_redraw();
                self.update_page_entries();
            },
            UIMode::ContextMenu => {
                self.context_menu.up(how_much);
                self.context_menu.horizontal_scroll = 0;
                self.redraw.context_menu = true;
            },
            UIMode::Help => {
                self.help.up(how_much);
                self.redraw.context_menu = true;
            },
            UIMode::MoveEntry(_, _) => {
                self.move_entry_step_up(how_much);
            },
            _ => {},
        }
    }

    /// In the move-entry mode: proposes the parent `how_much` steps
    /// further down the candidate list, wrapping around.
    fn move_entry_step_down(&mut self, how_much: usize)
        requires
            old(self).wf(),
            old(self).ui_mode matches UIMode::MoveEntry(_, _),
        ensures
            final(self).wf(),
            final(self).entries == old(self).entries,
            final(self).current_page == old(self).current_page,
            final(self).ctx == old(self).ctx,
            old(self).page_entries.entries@.len() < 2 || old(self).page_entries.selected_spec()
                == 0 ==> *final(self) == *old(self),
    {
        if self.page_entries.len() < 2 {
            return ;
        }
        if self.page_entries.selected() == 0 {
            return ;
        }
        let l = self.page_entries.len() - 1;
        let sel = self.page_entries.selected() - 1;
        let j128: u128 = ((sel as u128) + (how_much as u128)) % (l as u128);
        proof {
            vstd::arithmetic::div_mod::lemma_mod_bound(
                sel as int + how_much as int,
                l as int,
            );
        }
        let mut j: usize = j128 as usize;
        if j >= sel {
            j = j + 1;
        }
        let entry_ident = match self.page_entries.get_selected() {
            Option::Some(e) => e,
            Option::None => {
                return ;
            },
        };
        let new_parent = match self.page_entries.get(j) {
            Option::Some(p) => p,
            Option::None => {
                return ;
            },
        };
        self.change_ui_mode(UIMode::MoveEntry(entry_ident, new_parent));
        self.update_page_entries();
    }

    /// In the move-entry mode: proposes the parent `how_much` steps
    /// further up the candidate list, wrapping around.
    fn move_entry_step_up(&mut self, how_much: usize)
        requires
            old(self).wf(),
            old(self).ui_mode matches UIMode::MoveEntry(_, _),
        ensures
            final(self).wf(),
            final(self).entries == old(self).entries,
            final(self).current_page == old(self).current_page,
            final(self).ctx == old(self).ctx,
            old(self).page_entries.entries@.len() < 2 || old(self).page_entries.selected_spec()
                == 0 ==> *final(self) == *old(self),
    {
        if self.page_entries.len() < 2 {
            return ;
        }
        if self.page_entries.selected() == 0 {
            return ;
        }
        let l = self.page_entries.len() - 1;
        let sel = self.page_entries.selected() - 1;
        let step: usize = how_much % l;
        let mut j: usize = if sel >= step {
            sel - step
        } else {
            l - (step - sel)
        };
        if j >= sel {
            j = j + 1;
        }
        if j >= self.page_entries.len() {
            return ;
        }
        let entry_ident = match self.page_entries.get_selected() {
            Option::Some(e) => e,
            Option::None => {
                return ;
            },
        };
        let new_parent = match self.page_entries.get(j) {
            Option::Some(p) => p,
            Option::None => {
                return ;
            },
        };
        self.change_ui_mode(UIMode::MoveEntry(entry_ident, new_parent));
        self.update_page_entries();
    }

    /// Scrolls long context-menu labels one step back to the left.
    pub fn move_left(&mut self)
        ensures
            old(self).context_menu.horizontal_scroll > 0 ==> *final(self) == (RSState {
                context_menu: (ContextMenu {
                    horizontal_scroll: (old(self).context_menu.horizontal_scroll - 1) as usize,
                    ..old(self).context_menu
                }),
                redraw: (Redraw { context_menu: true, ..old(self).redraw }),
                ..*old(self)
            }),
            old(self).context_menu.horizontal_scroll == 0 ==> *final(self) == *old(self),
    {
        if self.context_menu.horizontal_scroll > 0 {
            self.context_menu.horizontal_scroll = self.context_menu.horizontal_scroll - 1;
            self.redraw.context_menu = true;
        }
    }

    /// Scrolls long context-menu labels one step to the right, up to
    /// the longest label.
    pub fn move_right(&mut self)
        ensures
            old(self).context_menu.horizontal_scroll
                < crate::models::context_menus::spec_max_label_len(old(self).context_menu.items@)
                ==> *final(self) == (RSState {
                context_menu: (ContextMenu {
                    horizontal_scroll: (old(self).context_menu.horizontal_scroll + 1) as usize,
                    ..old(self).context_menu
                }),
                redraw: (Redraw { context_menu: true, ..old(self).redraw }),
                ..*old(self)
            }),
            old(self).context_menu.horizontal_scroll
                >= crate::models::context_menus::spec_max_label_len(old(self).context_menu.items@)
                ==> *final(self) == *old(self),
    {
        if self.context_menu.horizontal_scroll < self.context_menu.max_horizontal_scroll() {
            self.context_menu.horizontal_scroll = self.context_menu.horizontal_scroll + 1;
            self.redraw.context_menu = true;
        }
    }

    /// Puts the cursor (or the context-menu cursor) at `index`.
    pub fn set_selected(&mut self, index: usize)
        requires
            old(self).wf(),
        ensures
            final(self).wf(),
            final(self).entries == old(self).entries,
            final(self).current_page == old(self).current_page,
            final(self).ui_mode == old(self).ui_mode,
            final(self).ctx == old(self).ctx,
            old(self).ui_mode == UIMode::Normal ==> {
                let moved = if old(self).page_entries.entries@.len() == 0 {
                    0int
                } else if index < old(self).page_entries.entries@.len() {
                    index as int
                } else {
                    old(self).page_entries.entries@.len() - 1
                };
                let idents = Self::spec_current_page_idents(
                    old(self).current_page,
                    old(self).entries@.rows,
                );
                &&& final(self).page_entries.entries@ == idents
                &&& final(self).page_entries.selected_spec() == (if idents.len() == 0 {
                    0int
                } else if moved < idents.len() {
                    moved
                } else {
                    idents.len() - 1
                })
                &&& (old(self).page_entries.entries@.len() > 0 ==> final(self).redraw.affected_entries@.contains(
                    old(self).page_entries.selected_spec() as usize,
                ))
            },
            old(self).ui_mode == UIMode::ContextMenu ==> {
                &&& final(self).context_menu.items == old(self).context_menu.items
                &&& final(self).redraw.context_menu
                &&& (old(self).context_menu.items@.len() > 0 ==> final(self).context_menu.selected_spec() == if index < old(self).context_menu.items@.len() {
                    index as int
                } else {
                    old(self).context_menu.items@.len() - 1
                })
            },
            !(old(self).ui_mode == UIMode::Normal || old(self).ui_mode == UIMode::ContextMenu)
                ==> *final(self) == *old(self),
    {
        match self.ui_mode {
            UIMode::Normal => {
                self.selected_entry_needs_redraw();
                self.page_entries.set_selected(index);
                self.selected_entry_needs_redraw();
                self.update_page_entries();
            },
            UIMode::ContextMenu => {
                self.context_menu.set_selected(index);
                self.redraw.context_menu = true;
            },
            _ => {},
        }
    }

    /// The signed-16-bit reinterpretation of an unsigned 16-bit value,
    /// as the `as` cast computes it.
    pub open spec fn spec_u16_as_i16(v: int) -> int {
        if v > 32767 {
            v - 65536
        } else {
            v
        }
    }

    /// The percentage clamped into the signed 16-bit range.
    pub open spec fn spec_clamp_i16(v: int) -> int {
        if v < -32768 {
            -32768
        } else if v > 32767 {
            32767
        } else {
            v
        }
    }

    /// Asks the audio server to toggle the mute flag of the target
    /// entry (explicit, or the one under the cursor).  Without a
    /// resolvable playback/recording target nothing happens.
    pub fn request_mute(&mut self, ident: &Option<EntryIdentifier>)
        requires
            old(self).wf(),
            old(self).ctx is Some,
        ensures
            final(self).wf(),
            match old(self).spec_target(*ident) {
                Option::Some(t) => match old(self).entries@.stored(t) {
                    Option::Some(e) => match e.entry_kind {
                        EntryKind::PlayEntry(p) => final(self).ctx is Some && spec_sends_pa(
                            old(self).ctx.unwrap()@,
                            final(self).ctx.unwrap()@,
                            PulseAudioAction::MuteEntry(t, !p.mute),
                        ) && final(self).entries == old(self).entries && final(self).ui_mode == old(self).ui_mode,
                        EntryKind::CardEntry(_) => *final(self) == *old(self),
                    },
                    Option::None => *final(self) == *old(self),
                },
                Option::None => *final(self) == *old(self),
            },
    {
        let target = match ident {
            Option::Some(i) => *i,
            Option::None => {
                match self.page_entries.get_selected() {
                    Option::Some(sel) => sel,
                    Option::None => {
                        return ;
                    },
                }
            },
        };
        let mute = match self.entries.get_play_entry(&target) {
            Option::Some(p) => p.mute,
            Option::None => {
                return ;
            },
        };
        self.post_pa(PulseAudioAction::MuteEntry(target, !mute));
    }

    /// The raw volume a relative volume change lands on: the current
    /// percentage of the loudest channel, shifted by `how_much` and
    /// clamped.
    pub open spec fn spec_changed_volume(p: crate::models::entry::PlayEntry, how: int) -> int {
        spec_percent_to_volume(
            Self::spec_clamp_i16(
                Self::spec_u16_as_i16(spec_volume_to_percent(spec_max_volume(p.volume@)))
                    + how,
            ),
        )
    }

    /// Asks the audio server to change the target entry's volume by
    /// `how_much` percent, every channel set to the same new level.
    pub fn request_change_volume(&mut self, how_much: i16, ident: &Option<EntryIdentifier>)
        requires
            old(self).wf(),
            old(self).ctx is Some,
        ensures
            final(self).wf(),
            match old(self).spec_target(*ident) {
                Option::Some(t) => match old(self).entries@.stored(t) {
                    Option::Some(e) => match e.entry_kind {
                        EntryKind::PlayEntry(p) => if 1 <= p.volume@.len() <= 32 {
                            &&& final(self).ctx is Some
                            &&& final(self).entries == old(self).entries
                            &&& ({
                                let pre = old(self).ctx.unwrap()@;
                                let post = final(self).ctx.unwrap()@;
                                &&& post.len() == pre.len() + 1
                                &&& post.subrange(0, pre.len() as int) == pre
                                &&& post.last() matches Request::SendTo(name, env) && name@
                                    == "pulseaudio"@ && (env matches Envelope::Payload(
                                    AppMessage::PulseAudio(PulseAudioAction::SetVolume(i, v)),
                                ) && i == t && v@.len() == p.volume@.len() && (forall|k: int|
                                    0 <= k < v@.len() ==> v@[k] == Self::spec_changed_volume(
                                        p,
                                        how_much as int,
                                    )))
                            })
                        } else {
                            *final(self) == *old(self)
                        },
                        EntryKind::CardEntry(_) => *final(self) == *old(self),
                    },
                    Option::None => *final(self) == *old(self),
                },
                Option::None => *final(self) == *old(self),
            },
    {
        let target = match ident {
            Option::Some(i) => *i,
            Option::None => {
                match self.page_entries.get_selected() {
                    Option::Some(sel) => sel,
                    Option::None => {
                        return ;
                    },
                }
            },
        };
        let mut vols = match self.entries.get_play_entry(&target) {
            Option::Some(p) => p.volume.duplicate(),
            Option::None => {
                return ;
            },
        };
        if vols.len() == 0 || vols.len() > 32 {
            return ;
        }
        let current = volume_to_percent(vols.max_channel());
        let reinterpreted: i32 = if current > 32767 {
            current as i32 - 65536
        } else {
            current as i32
        };
        let shifted: i32 = reinterpreted + how_much as i32;
        let clamped: i16 = if shifted < -32768 {
            -32768
        } else if shifted > 32767 {
            32767
        } else {
            shifted as i16
        };
        let target_volume = percent_to_volume(clamped);
        vols.set_all(target_volume);
        self.post_pa(PulseAudioAction::SetVolume(target, vols));
    }

    /// Fills the exact-volume input box with the selected entry's
    /// current percentage and puts the cursor at its end.
    pub fn setup_volume_input(&mut self)
        requires
            old(self).wf(),
        ensures
            final(self).wf(),
            old(self).page_entries.entries@.len() == 0 ==> *final(self) == *old(self),
            final(self).current_page == old(self).current_page,
            final(self).entries == old(self).entries,
            final(self).page_entries == old(self).page_entries,
            final(self).ui_mode == old(self).ui_mode,
            final(self).ctx == old(self).ctx,
            final(self).bindings == old(self).bindings,
            old(self).page_entries.entries@.len() > 0 ==> {
                let sel = old(self).page_entries.entries@[old(self).page_entries.selected_spec()];
                let percent = match old(self).entries@.stored(sel) {
                    Option::Some(e) => match e.entry_kind {
                        EntryKind::PlayEntry(p) => if 1 <= p.volume@.len() <= 32 {
                            spec_volume_to_percent(spec_max_volume(p.volume@))
                        } else {
                            0int
                        },
                        EntryKind::CardEntry(_) => 0int,
                    },
                    Option::None => 0int,
                };
                &&& final(self).input_exact_volume.value@
                    == crate::util::spec_u16_digits(percent)
                &&& final(self).redraw.context_menu
            },
    {
        let sel = match self.page_entries.get_selected() {
            Option::Some(s) => s,
            Option::None => {
                return ;
            },
        };
        let percent: u16 = match self.entries.get_play_entry(&sel) {
            Option::Some(p) => {
                if p.volume.len() == 0 || p.volume.len() > 32 {
                    0
                } else {
                    volume_to_percent(p.volume.max_channel())
                }
            },
            Option::None => 0,
        };
        let text = crate::util::u16_to_string(percent);
        let len = text.as_str().unicode_len();
        let cursor: u8 = if len > 255 {
            255
        } else {
            len as u8
        };
        self.set_volume_input_value(text, cursor);
    }

    /// Overwrites the exact-volume input box and flags the overlay for
    /// repaint.
    pub fn set_volume_input_value(&mut self, percent: String, cursor: u8)
        ensures
            *final(self) == (RSState {
                input_exact_volume: (VolumeInputWidget { value: percent, cursor }),
                redraw: (Redraw { context_menu: true, ..old(self).redraw }),
                ..*old(self)
            }),
    {
        self.redraw.context_menu = true;
        self.input_exact_volume.value = percent;
        self.input_exact_volume.cursor = cursor;
    }

    /// Replaces the current page and returns to the normal mode.
    pub fn change_page(&mut self, page: PageType)
        requires
            old(self).wf(),
        ensures
            final(self).wf(),
            final(self).current_page == page,
            final(self).ui_mode == UIMode::Normal,
            final(self).redraw.resize,
            final(self).entries == old(self).entries,
            final(self).page_entries.entries@ == Self::spec_current_page_idents(
                page,
                old(self).entries@.rows,
            ),
            final(self).ctx == old(self).ctx,
    {
        self.current_page = page;
        self.change_ui_mode(UIMode::Normal);
        self.update_page_entries();
    }

    /// Hides the target entry (explicit, or the one under the cursor)
    /// and recomputes the page.
    pub fn hide_entry(&mut self, ident: &Option<EntryIdentifier>)
        requires
            old(self).wf(),
        ensures
            final(self).wf(),
            final(self).current_page == old(self).current_page,
            final(self).ui_mode == old(self).ui_mode,
            final(self).ctx == old(self).ctx,
            old(self).spec_target(*ident) is None ==> *final(self) == *old(self),
            match old(self).spec_target(*ident) {
                Option::Some(t) => {
                    &&& (old(self).entries@.contains(t) ==> final(self).entries@.rows[old(self).entries@.position(t)].hidden)
                    &&& final(self).entries@.rows.len() == old(self).entries@.rows.len()
                    &&& final(self).page_entries.entries@ == Self::spec_current_page_idents(
                        old(self).current_page,
                        final(self).entries@.rows,
                    )
                },
                Option::None => true,
            },
    {
        let target = match ident {
            Option::Some(i) => *i,
            Option::None => {
                match self.page_entries.get_selected() {
                    Option::Some(s) => s,
                    Option::None => {
                        return ;
                    },
                }
            },
        };
        self.entries.mark_hidden(target);
        self.update_page_entries();
    }

    /// Opens the context menu for the target entry: optionally moves
    /// the cursor to an explicitly named entry first, then builds the
    /// menu for whatever the cursor rests on.
    pub fn open_context_menu(&mut self, ident: &Option<EntryIdentifier>)
        requires
            old(self).wf(),
        ensures
            final(self).wf(),
            final(self).entries == old(self).entries,
            final(self).current_page == old(self).current_page,
            final(self).ctx == old(self).ctx,
            final(self).ui_mode == UIMode::ContextMenu || final(self).ui_mode == old(self).ui_mode,
            final(self).ui_mode == UIMode::ContextMenu && final(self).page_entries.entries@.len()
                > 0 ==> {
                let sel = final(self).page_entries.entries@[final(self).page_entries.selected_spec()];
                match old(self).entries@.stored(sel) {
                    Option::Some(e) => final(self).context_menu.items@.map_values(
                        |it: crate::models::context_menus::ContextMenuItem| it.action,
                    ) == crate::models::context_menus::spec_menu_actions(e) && final(self).redraw.resize,
                    Option::None => true,
                }
            },
    {
        match ident {
            Option::Some(i) => {
                match self.page_entries.ident_position(*i) {
                    Option::Some(index) => {
                        self.page_entries.set_selected(index);
                        self.update_page_entries();
                    },
                    Option::None => {},
                }
            },
            Option::None => {},
        }
        if self.page_entries.selected() < self.page_entries.len() {
            let sel = match self.page_entries.get(self.page_entries.selected()) {
                Option::Some(s) => s,
                Option::None => {
                    return ;
                },
            };
            let (menu, card_profile) = match self.entries.get(&sel) {
                Option::Some(entry) => {
                    let menu = ContextMenu::new(entry);
                    let profile = match &entry.entry_kind {
                        EntryKind::CardEntry(card) => {
                            match card.selected_profile {
                                Option::Some(p) => Option::Some(p),
                                Option::None => Option::Some(0usize),
                            }
                        },
                        EntryKind::PlayEntry(_) => Option::None,
                    };
                    (menu, profile)
                },
                Option::None => {
                    return ;
                },
            };
            self.ui_mode = UIMode::ContextMenu;
            self.context_menu = menu;
            match card_profile {
                Option::Some(p) => {
                    self.context_menu.set_selected(p);
                },
                Option::None => {},
            }
            self.redraw.resize = true;
        }
    }

    /// Confirms the exact-volume input: when the box holds a decimal
    /// number and a playback/recording entry is selected, every channel
    /// of that entry is set to the entered percentage.
    pub fn confirm_input_volume(&mut self)
        requires
            old(self).wf(),
            old(self).ctx is Some,
        ensures
            final(self).wf(),
            old(self).page_entries.entries@.len() == 0 ==> *final(self) == *old(self),
            old(self).page_entries.entries@.len() > 0 ==> match spec_parse_u16(
                old(self).input_exact_volume.value@,
            ) {
                Option::None => *final(self) == *old(self),
                Option::Some(percent) => {
                let sel = old(self).page_entries.entries@[old(self).page_entries.selected_spec()];
                match old(self).entries@.stored(sel) {
                    Option::Some(e) => match e.entry_kind {
                        EntryKind::PlayEntry(p) => {
                            &&& final(self).ctx is Some
                            &&& final(self).entries == old(self).entries
                            &&& ({
                                let pre = old(self).ctx.unwrap()@;
                                let post = final(self).ctx.unwrap()@;
                                &&& post.len() == pre.len() + 1
                                &&& post.subrange(0, pre.len() as int) == pre
                                &&& post.last() matches Request::SendTo(name, env) && name@
                                    == "pulseaudio"@ && (env matches Envelope::Payload(
                                    AppMessage::PulseAudio(PulseAudioAction::SetVolume(i, v)),
                                ) && i == sel && v@.len() == p.volume@.len() && (forall|k: int|
                                    0 <= k < v@.len() ==> v@[k] == spec_percent_to_volume(
                                        Self::spec_u16_as_i16(percent as int),
                                    )))
                            })
                        },
                        EntryKind::CardEntry(_) => *final(self) == *old(self),
                    },
                    Option::None => *final(self) == *old(self),
                }
                },
            },
    {
        let sel = match self.page_entries.get_selected() {
            Option::Some(s) => s,
            Option::None => {
                return ;
            },
        };
        let percent = match crate::util::parse_u16(&self.input_exact_volume.value) {
            Option::Some(p) => p,
            Option::None => {
                return ;
            },
        };
        let mut vols = match self.entries.get_play_entry(&sel) {
            Option::Some(p) => p.volume.duplicate(),
            Option::None => {
                return ;
            },
        };
        let signed: i16 = if percent > 32767 {
            let wrapped: i32 = percent as i32 - 65536;
            wrapped as i16
        } else {
            percent as i16
        };
        let vol = percent_to_volume(signed);
        vols.set_all(vol);
        self.post_pa(PulseAudioAction::SetVolume(sel, vols));
    }

    /// The parent proposed when the user starts moving an entry: the
    /// stream's current device if it is still known, the device with
    /// server index zero otherwise; nothing when the entry has no
    /// parent.
    pub open spec fn spec_move_parent(&self, sel: EntryIdentifier) -> Option<EntryIdentifier> {
        let parent_type = Self::spec_page_types(self.current_page).0;
        match self.entries@.stored(sel) {
            Option::Some(e) => match e.entry_kind {
                EntryKind::PlayEntry(p) => match p.parent {
                    Option::Some(pid) => {
                        let cand = EntryIdentifier { entry_type: parent_type, index: pid };
                        if self.entries@.contains(cand) {
                            Option::Some(cand)
                        } else {
                            Option::Some(EntryIdentifier { entry_type: parent_type, index: 0 })
                        }
                    },
                    Option::None => Option::None,
                },
                EntryKind::CardEntry(_) => Option::None,
            },
            Option::None => Option::None,
        }
    }

    /// Confirms the selected context-menu option: server commands go
    /// out at once, the move option enters the move-entry mode, and in
    /// every handled case the menu closes.
    pub fn confirm_context_menu(&mut self)
        requires
            old(self).wf(),
            old(self).ctx is Some,
        ensures
            final(self).wf(),
            final(self).entries == old(self).entries,
            final(self).current_page == old(self).current_page,
            old(self).page_entries.entries@.len() == 0 || old(self).context_menu.items@.len()
                == 0 ==> *final(self) == *old(self),
            old(self).page_entries.entries@.len() > 0 && old(self).context_menu.items@.len() > 0
                ==> {
                let sel = old(self).page_entries.entries@[old(self).page_entries.selected_spec()];
                let action = old(self).context_menu.items@[old(self).context_menu.selected_spec()].action;
                if action == crate::models::context_menus::ContextMenuOption::Move {
                    &&& final(self).ctx is Some
                    &&& final(self).ctx.unwrap()@ == old(self).ctx.unwrap()@
                    &&& final(self).redraw.resize
                    &&& match old(self).spec_move_parent(sel) {
                        Option::Some(parent) => final(self).ui_mode == UIMode::MoveEntry(
                            sel,
                            parent,
                        ),
                        Option::None => final(self).ui_mode == UIMode::Normal,
                    }
                } else {
                    &&& final(self).ui_mode == UIMode::Normal
                    &&& final(self).redraw.resize
                    &&& final(self).ctx is Some
                    &&& ({
                        let pre = old(self).ctx.unwrap()@;
                        let post = final(self).ctx.unwrap()@;
                        &&& post.len() == pre.len() + 1
                        &&& post.subrange(0, pre.len() as int) == pre
                        &&& post.last() matches Request::SendTo(name, env) && name@
                            == "pulseaudio"@ && (env matches Envelope::Payload(
                            AppMessage::PulseAudio(cmd),
                        ) && crate::models::context_menus::spec_resolved_command(
                            old(self).context_menu,
                            sel,
                            cmd,
                        ))
                    })
                }
            },
    {
        let sel = match self.page_entries.get_selected() {
            Option::Some(s) => s,
            Option::None => {
                return ;
            },
        };
        if self.context_menu.len() == 0 {
            return ;
        }
        let ghost pre_ctx = self.ctx.unwrap()@;
        let answer = match &mut self.ctx {
            Option::Some(c) => self.context_menu.resolve(sel, c),
            Option::None => {
                return ;
            },
        };
        match answer {
            ContextMenuEffect::Nothing => {
                self.change_ui_mode(UIMode::Normal);
            },
            ContextMenuEffect::MoveEntry => {
                let (parent_type, _) = self.current_page.parent_child_types();
                let parent = match self.entries.get_play_entry(&sel) {
                    Option::Some(p) => p.parent,
                    Option::None => Option::None,
                };
                match parent {
                    Option::Some(pid) => {
                        let cand = EntryIdentifier::new(parent_type, pid);
                        let parent_ident = if self.entries.get(&cand).is_some() {
                            cand
                        } else {
                            EntryIdentifier::new(parent_type, 0)
                        };
                        self.change_ui_mode(UIMode::MoveEntry(sel, parent_ident));
                        self.update_page_entries();
                    },
                    Option::None => {
                        self.change_ui_mode(UIMode::Normal);
                    },
                }
            },
        }
    }

    /// Switches the interaction mode and requests a full repaint.
    pub fn change_ui_mode(&mut self, mode: UIMode)
        ensures
            *final(self) == (RSState {
                ui_mode: mode,
                redraw: (Redraw { resize: true, ..old(self).redraw }),
                ..*old(self)
            }),
    {
        self.ui_mode = mode;
        self.redraw.resize = true;
    }
}

impl Default for RSState {
    /// A fresh state not yet bound to a routing handle.
    fn default() -> (r: RSState)
        ensures
            r.wf(),
            r.spec_fresh(),
            !r.redraw.spec_anything(),
            r.ctx is None,
    {
        RSState {
            current_page: PageType::Output,
            entries: Entries::new(),
            page_entries: PageEntries::new(),
            context_menu: ContextMenu::default(),
            ui_mode: UIMode::Normal,
            redraw: Redraw::default(),
            help: HelpWidget::default(),
            warning_text: WarningTextWidget { text: String::new() },
            input_exact_volume: VolumeInputWidget::default(),
            ui: UI::default(),
            bindings: MultiMap::new(),
            ctx: Option::None,
        }
    }
}

/// Which entries a page shows depends only on each row's identifier
/// and hidden flag, never on display state such as the highlight.
pub proof fn lemma_page_idents_ignore_display(
    a: Seq<Entry>,
    b: Seq<Entry>,
    parent: EntryType,
    child: EntryType,
)
    requires
        a.len() == b.len(),
        forall|k: int|
            0 <= k < a.len() ==> (#[trigger] a[k]).entry_ident == b[k].entry_ident && a[k].hidden
                == b[k].hidden,
    ensures
        spec_page_idents(a, parent, child) == spec_page_idents(b, parent, child),
    decreases a.len(),
{
    if a.len() > 0 {
        lemma_page_idents_ignore_display(a.drop_last(), b.drop_last(), parent, child);
    }
}

/// True when two identifier lists are equal element for element.
fn idents_equal(a: &Vec<EntryIdentifier>, b: &Vec<EntryIdentifier>) -> (r: bool)
    ensures
        r == (a@ == b@),
{
    if a.len() != b.len() {
        proof {
            assert(a@.len() != b@.len());
        }
        return false;
    }
    let n = a.len();
    let mut i: usize = 0;
    while i < n
        invariant
            i <= n,
            n == a@.len() == b@.len(),
            forall|k: int| 0 <= k < i ==> a@[k] == b@[k],
        decreases n - i,
    {
        let x = a[i];
        let y = b[i];
        if !(x.entry_type == y.entry_type && x.index == y.index) {
            return false;
        }
        i = i + 1;
    }
    proof {
        assert(a@ =~= b@);
    }
    true
}

} // verus!
