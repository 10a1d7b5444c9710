//! The audio objects the mixer displays: playback/recording entries and
//! cards, addressed by a typed identifier, stored in insertion order.

use vstd::prelude::*;

use crate::ui::buffer::Rect;

verus! {

/// The kind of audio-server object an identifier points at.
#[derive(Clone, Copy, Debug, PartialEq, Eq, Hash, Structural)]
pub enum EntryType {
    Sink,
    SinkInput,
    Source,
    SourceOutput,
    Card,
}

/// The unique address of one audio object: its kind plus the server's
/// index for it.
#[derive(Clone, Copy, Debug, PartialEq, Eq, Hash, Structural)]
pub struct EntryIdentifier {
    pub entry_type: EntryType,
    pub index: u32,
}

impl EntryIdentifier {
    pub fn new(entry_type: EntryType, index: u32) -> (r: EntryIdentifier)
        ensures
            r.entry_type == entry_type,
            r.index == index,
    {
        EntryIdentifier { entry_type, index }
    }
}

/// The per-channel volume of a playback or recording object.  The audio
/// server reports at most 32 channels and always at least one.
#[derive(Clone, Debug)]
pub struct ChannelVolumes {
    channels: Vec<u32>,
}

impl View for ChannelVolumes {
    type V = Seq<u32>;

    closed spec fn view(&self) -> Seq<u32> {
        self.channels@
    }
}

/// The largest element of a non-empty volume sequence.
pub open spec fn spec_max_volume(s: Seq<u32>) -> int
    decreases s.len(),
{
    if s.len() <= 1 {
        s[0] as int
    } else if s.last() as int >= spec_max_volume(s.drop_last()) {
        s.last() as int
    } else {
        spec_max_volume(s.drop_last())
    }
}

impl ChannelVolumes {
    /// A well-formed volume always covers between 1 and 32 channels.
    pub open spec fn wf(&self) -> bool {
        1 <= self@.len() <= 32
    }

    /// A volume with `count` channels, all set to `value`.
    pub fn new(count: usize, value: u32) -> (r: ChannelVolumes)
        requires
            1 <= count <= 32,
        ensures
            r.wf(),
            r@.len() == count,
            forall|i: int| 0 <= i < count ==> r@[i] == value,
    {
        let mut channels: Vec<u32> = Vec::new();
        let mut k: usize = 0;
        while k < count
            invariant
                k <= count,
                channels@.len() == k,
                forall|i: int| 0 <= i < k ==> channels@[i] == value,
            decreases count - k,
        {
            channels.push(value);
            k = k + 1;
        }
        ChannelVolumes { channels }
    }

    /// Number of channels.
    pub fn len(&self) -> (r: usize)
        ensures
            r == self@.len(),
    {
        self.channels.len()
    }

    /// The volume of one channel.
    pub fn channel(&self, i: usize) -> (r: u32)
        requires
            i < self@.len(),
        ensures
            r == self@[i as int],
    {
        self.channels[i]
    }

    /// Sets every channel to `value`.
    pub fn set_all(&mut self, value: u32)
        ensures
            final(self)@.len() == old(self)@.len(),
            forall|i: int| 0 <= i < final(self)@.len() ==> final(self)@[i] == value,
            old(self).wf() ==> final(self).wf(),
    {
        let n = self.channels.len();
        let mut k: usize = 0;
        while k < n
            invariant
                k <= n,
                self.channels@.len() == n,
                forall|i: int| 0 <= i < k ==> self.channels@[i] == value,
            decreases n - k,
        {
            self.channels[k] = value;
            k = k + 1;
        }
    }

    /// An independent copy with the same channel volumes.
    pub fn duplicate(&self) -> (r: ChannelVolumes)
        ensures
            r@ == self@,
    {
        let mut channels: Vec<u32> = Vec::new();
        let n = self.channels.len();
        let mut k: usize = 0;
        while k < n
            invariant
                k <= n,
                n == self.channels@.len(),
                channels@ =~= self.channels@.subrange(0, k as int),
            decreases n - k,
        {
            channels.push(self.channels[k]);
            k = k + 1;
        }
        proof {
            assert(channels@ =~= self.channels@);
        }
        ChannelVolumes { channels }
    }

    /// The loudest channel: the single volume the mixer displays.
    pub fn max_channel(&self) -> (r: u32)
        requires
            self.wf(),
        ensures
            r == spec_max_volume(self@),
    {
        let mut best: u32 = self.channels[0];
        let n = self.channels.len();
        let mut k: usize = 1;
        while k < n
            invariant
                1 <= k <= n,
                n == self@.len(),
                1 <= n,
                best == spec_max_volume(self@.subrange(0, k as int)),
            decreases n - k,
        {
            proof {
                assert(self@.subrange(0, k + 1).drop_last() =~= self@.subrange(0, k as int));
                assert(self@.subrange(0, k + 1).last() == self@[k as int]);
            }
            let c = self.channels[k];
            if c > best {
                best = c;
            }
            k = k + 1;
        }
        proof {
            assert(self@.subrange(0, n as int) =~= self@);
        }
        best
    }

    /// True when both volumes are channel-for-channel equal.
    pub fn same_as(&self, other: &ChannelVolumes) -> (r: bool)
        ensures
            r == (self@ == other@),
    {
        if self.channels.len() != other.channels.len() {
            proof {
                assert(self@.len() != other@.len());
            }
            return false;
        }
        let n = self.channels.len();
        let mut k: usize = 0;
        while k < n
            invariant
                k <= n,
                n == self@.len() == other@.len(),
                forall|i: int| 0 <= i < k ==> self@[i] == other@[i],
            decreases n - k,
        {
            if self.channels[k] != other.channels[k] {
                return false;
            }
            k = k + 1;
        }
        proof {
            assert(self@ =~= other@);
        }
        true
    }
}

/// The mutable state of a playback or recording object.
#[derive(Clone, Debug)]
pub struct PlayEntry {
    /// Whether the object is muted.
    pub mute: bool,
    /// Its per-channel volume.
    pub volume: ChannelVolumes,
    /// The server index of the sink or source it is attached to, for
    /// stream objects.
    pub parent: Option<u32>,
    /// Whether the device is suspended.
    pub suspended: bool,
}

/// The mutable state of a sound card.
#[derive(Clone, Debug)]
pub struct CardEntry {
    /// The names of the card's profiles, in server order.
    pub profiles: Vec<String>,
    /// Index into `profiles` of the active profile, if known.
    pub selected_profile: Option<usize>,
}

/// What kind of object an entry is, with its kind-specific state.
#[derive(Clone, Debug)]
pub enum EntryKind {
    PlayEntry(PlayEntry),
    CardEntry(CardEntry),
}

/// One row of the mixer: an audio object together with its display
/// state.
#[derive(Clone, Debug)]
pub struct Entry {
    /// The object's unique address.
    pub entry_ident: EntryIdentifier,
    /// The human-readable name the server reports.
    pub name: String,
    /// Whether the row is currently highlighted.
    pub is_selected: bool,
    /// Whether the user hid the row.
    pub hidden: bool,
    /// The screen area the row was last drawn in.
    pub area: Rect,
    /// Kind-specific state.
    pub entry_kind: EntryKind,
}

/// Whether two entries look the same on screen, so that replacing one by
/// the other needs no repaint.
pub open spec fn spec_same_appearance(a: Entry, b: Entry) -> bool {
    &&& a.name@ == b.name@
    &&& a.hidden == b.hidden
    &&& match (a.entry_kind, b.entry_kind) {
        (EntryKind::PlayEntry(x), EntryKind::PlayEntry(y)) => x.mute == y.mute && x.volume@
            == y.volume@ && x.suspended == y.suspended,
        (EntryKind::CardEntry(x), EntryKind::CardEntry(y)) => x.selected_profile
            == y.selected_profile,
        _ => false,
    }
}

impl Entry {
    /// True when this entry would be drawn differently from the version
    /// of the same object currently stored in `entries` (or when none is
    /// stored yet).
    pub fn needs_redraw(&self, entries: &Entries) -> (r: bool)
        ensures
            r == match entries@.stored(self.entry_ident) {
                Option::Some(e) => !spec_same_appearance(e, *self),
                Option::None => true,
            },
    {
        match entries.get(&self.entry_ident) {
            Option::Some(e) => !self.same_appearance_as(e),
            Option::None => true,
        }
    }

    /// Copies the last drawn screen area over from the stored version of
    /// the same object, so that an update repaints in place.
    pub fn inherit_area(&mut self, entries: &Entries)
        ensures
            final(self).area == match entries@.stored(old(self).entry_ident) {
                Option::Some(e) => e.area,
                Option::None => old(self).area,
            },
            final(self).entry_ident == old(self).entry_ident,
            final(self).name == old(self).name,
            final(self).is_selected == old(self).is_selected,
            final(self).hidden == old(self).hidden,
            final(self).entry_kind == old(self).entry_kind,
    {
        match entries.get(&self.entry_ident) {
            Option::Some(e) => {
                self.area = e.area;
            },
            Option::None => {},
        }
    }

    /// True when the two entries look the same on screen.
    pub fn same_appearance_as(&self, other: &Entry) -> (r: bool)
        ensures
            r == spec_same_appearance(*other, *self),
    {
        if !(self.name == other.name) {
            return false;
        }
        if self.hidden != other.hidden {
            return false;
        }
        match (&self.entry_kind, &other.entry_kind) {
            (EntryKind::PlayEntry(x), EntryKind::PlayEntry(y)) => x.mute == y.mute
                && x.volume.same_as(&y.volume) && x.suspended == y.suspended,
            (EntryKind::CardEntry(x), EntryKind::CardEntry(y)) => {
                match (x.selected_profile, y.selected_profile) {
                    (Option::Some(a), Option::Some(b)) => a == b,
                    (Option::None, Option::None) => true,
                    _ => false,
                }
            },
            _ => false,
        }
    }
}

/// The position in `s` of the entry addressed by `ident`, or `-1`.
pub open spec fn spec_entry_position(s: Seq<Entry>, ident: EntryIdentifier, i: int) -> int
    decreases s.len() - i,
{
    if i < 0 || i >= s.len() {
        -1
    } else if s[i].entry_ident == ident {
        i
    } else {
        spec_entry_position(s, ident, i + 1)
    }
}

/// The mathematical image of the entry store: the rows in insertion
/// order.
pub struct EntriesModel {
    pub rows: Seq<Entry>,
}

impl EntriesModel {
    /// Position of the entry addressed by `ident`, or `-1`.
    pub open spec fn position(self, ident: EntryIdentifier) -> int {
        spec_entry_position(self.rows, ident, 0)
    }

    /// True when an entry is stored under `ident`.
    pub open spec fn contains(self, ident: EntryIdentifier) -> bool {
        self.position(ident) >= 0
    }

    /// The entry stored under `ident`, if any.
    pub open spec fn stored(self, ident: EntryIdentifier) -> Option<Entry> {
        if self.contains(ident) {
            Option::Some(self.rows[self.position(ident)])
        } else {
            Option::None
        }
    }

    /// Identifiers are unique across the store.
    pub open spec fn wf(self) -> bool {
        forall|i: int, j: int|
            0 <= i < j < self.rows.len() ==> self.rows[i].entry_ident != self.rows[j].entry_ident
    }
}

/// All known audio objects, in the order the server announced them.
#[derive(Debug)]
pub struct Entries {
    list: Vec<Entry>,
}

impl View for Entries {
    type V = EntriesModel;

    closed spec fn view(&self) -> EntriesModel {
        EntriesModel { rows: self.list@ }
    }
}

impl Entries {
    /// An empty store.
    pub fn new() -> (r: Entries)
        ensures
            r@.rows.len() == 0,
            r@.wf(),
    {
        Entries { list: Vec::new() }
    }

    /// Number of stored entries.
    pub fn len(&self) -> (r: usize)
        ensures
            r == self@.rows.len(),
    {
        self.list.len()
    }

    /// The entry at a store position.
    pub fn row(&self, i: usize) -> (r: &Entry)
        requires
            i < self@.rows.len(),
        ensures
            *r == self@.rows[i as int],
    {
        &self.list[i]
    }

    /// Position of the entry addressed by `ident`, if it is stored.
    fn position_of(&self, ident: &EntryIdentifier) -> (r: Option<usize>)
        ensures
            match r {
                Option::Some(i) => self@.position(*ident) == i && i < self@.rows.len(),
                Option::None => self@.position(*ident) == -1,
            },
    {
        let n = self.list.len();
        for i in 0..n
            invariant
                n == self@.rows.len(),
                spec_entry_position(self@.rows, *ident, 0) == spec_entry_position(
                    self@.rows,
                    *ident,
                    i as int,
                ),
        {
            let e = &self.list[i];
            if e.entry_ident.entry_type == ident.entry_type && e.entry_ident.index == ident.index {
                return Option::Some(i);
            }
            assert(spec_entry_position(self@.rows, *ident, i as int) == spec_entry_position(
                self@.rows,
                *ident,
                i as int + 1,
            ));
        }
        Option::None
    }

    /// The entry stored under `ident`, if any.
    pub fn get(&self, ident: &EntryIdentifier) -> (r: Option<&Entry>)
        ensures
            match r {
                Option::Some(e) => self@.stored(*ident) == Option::Some(*e),
                Option::None => self@.stored(*ident) is None,
            },
    {
        match self.position_of(ident) {
            Option::Some(i) => Option::Some(&self.list[i]),
            Option::None => Option::None,
        }
    }

    /// The playback/recording state stored under `ident`, if the entry
    /// exists and is of that kind.
    pub fn get_play_entry(&self, ident: &EntryIdentifier) -> (r: Option<&PlayEntry>)
        ensures
            match self@.stored(*ident) {
                Option::Some(e) => match e.entry_kind {
                    EntryKind::PlayEntry(p) => r == Option::Some(&p),
                    EntryKind::CardEntry(_) => r is None,
                },
                Option::None => r is None,
            },
    {
        match self.get(ident) {
            Option::Some(e) => match &e.entry_kind {
                EntryKind::PlayEntry(p) => Option::Some(p),
                EntryKind::CardEntry(_) => Option::None,
            },
            Option::None => Option::None,
        }
    }

    /// Stores `entry` under `ident`: replaces the stored version in
    /// place, or appends a new row.
    pub fn insert(&mut self, ident: EntryIdentifier, entry: Entry)
        requires
            old(self)@.wf(),
            entry.entry_ident == ident,
        ensures
            final(self)@.wf(),
            old(self)@.contains(ident) ==> final(self)@.rows == old(self)@.rows.update(
                old(self)@.position(ident),
                entry,
            ),
            !old(self)@.contains(ident) ==> final(self)@.rows == old(self)@.rows.push(entry),
            final(self)@.contains(ident),
            final(self)@.stored(ident) == Option::Some(entry),
    {
        match self.position_of(&ident) {
            Option::Some(i) => {
                proof {
                    lemma_position_finds(old(self)@.rows, ident, 0);
                }
                self.list[i] = entry;
                proof {
                    assert(forall|k: int|
                        0 <= k < self@.rows.len() ==> self@.rows[k].entry_ident == old(self)@.rows[k].entry_ident);
                    assert forall|other: EntryIdentifier|
                        #[trigger] spec_entry_position(self@.rows, other, 0) == spec_entry_position(
                            old(self)@.rows,
                            other,
                            0,
                        ) by {
                        lemma_same_idents_same_position(self@.rows, old(self)@.rows, other, 0);
                    }
                }
            },
            Option::None => {
                self.list.push(entry);
                proof {
                    lemma_position_none_means_absent(old(self)@.rows, ident, 0);
                    lemma_position_of_push(old(self)@.rows, entry, 0);
                }
            },
        }
    }

    /// Removes the entry stored under `ident`, if any.
    pub fn remove(&mut self, ident: &EntryIdentifier)
        requires
            old(self)@.wf(),
        ensures
            final(self)@.wf(),
            old(self)@.contains(*ident) ==> final(self)@.rows == old(self)@.rows.remove(
                old(self)@.position(*ident),
            ),
            !old(self)@.contains(*ident) ==> final(self)@ == old(self)@,
            !final(self)@.contains(*ident),
    {
        match self.position_of(ident) {
            Option::Some(i) => {
                proof {
                    lemma_position_finds(old(self)@.rows, *ident, 0);
                }
                self.list.remove(i);
                proof {
                    assert forall|j: int|
                        0 <= j < self@.rows.len() implies self@.rows[j].entry_ident
                        != *ident by {
                        if j < i {
                            lemma_position_skips(old(self)@.rows, *ident, 0, j);
                        } else {
                            assert(self@.rows[j] == old(self)@.rows[j + 1]);
                        }
                    }
                    lemma_absent_means_position_none(self@.rows, *ident, 0);
                }
            },
            Option::None => {},
        }
    }

    /// Marks the entry stored under `ident` as hidden.
    pub fn mark_hidden(&mut self, ident: EntryIdentifier)
        requires
            old(self)@.wf(),
        ensures
            final(self)@.wf(),
            final(self)@.rows.len() == old(self)@.rows.len(),
            old(self)@.contains(ident) ==> {
                let i = old(self)@.position(ident);
                &&& final(self)@.rows[i].hidden
                &&& final(self)@.rows[i].entry_ident == old(self)@.rows[i].entry_ident
                &&& forall|j: int|
                    0 <= j < old(self)@.rows.len() && j != i ==> final(self)@.rows[j] == old(self)@.rows[j]
            },
            !old(self)@.contains(ident) ==> final(self)@ == old(self)@,
    {
        match self.position_of(&ident) {
            Option::Some(i) => {
                self.list[i].hidden = true;
                proof {
                    assert forall|other: EntryIdentifier|
                        #[trigger] spec_entry_position(self@.rows, other, 0) == spec_entry_position(
                            old(self)@.rows,
                            other,
                            0,
                        ) by {
                        lemma_same_idents_same_position(self@.rows, old(self)@.rows, other, 0);
                    }
                }
            },
            Option::None => {},
        }
    }

    /// Flags the entry stored under `ident` as selected or not.
    pub fn set_selected_flag(&mut self, ident: &EntryIdentifier, selected: bool)
        requires
            old(self)@.wf(),
        ensures
            final(self)@.wf(),
            final(self)@.rows.len() == old(self)@.rows.len(),
            old(self)@.contains(*ident) ==> {
                let i = old(self)@.position(*ident);
                &&& final(self)@.rows[i].is_selected == selected
                &&& final(self)@.rows[i].entry_ident == old(self)@.rows[i].entry_ident
                &&& final(self)@.rows[i].hidden == old(self)@.rows[i].hidden
                &&& forall|j: int|
                    0 <= j < old(self)@.rows.len() && j != i ==> final(self)@.rows[j] == old(self)@.rows[j]
            },
            !old(self)@.contains(*ident) ==> final(self)@ == old(self)@,
    {
        match self.position_of(ident) {
            Option::Some(i) => {
                self.list[i].is_selected = selected;
                proof {
                    assert forall|other: EntryIdentifier|
                        #[trigger] spec_entry_position(self@.rows, other, 0) == spec_entry_position(
                            old(self)@.rows,
                            other,
                            0,
                        ) by {
                        lemma_same_idents_same_position(self@.rows, old(self)@.rows, other, 0);
                    }
                }
            },
            Option::None => {},
        }
    }
}

/// Two row sequences with the same identifiers in the same positions
/// are scanned identically.
pub proof fn lemma_same_idents_same_position(
    a: Seq<Entry>,
    b: Seq<Entry>,
    ident: EntryIdentifier,
    i: int,
)
    requires
        0 <= i,
        a.len() == b.len(),
        forall|k: int| 0 <= k < a.len() ==> a[k].entry_ident == b[k].entry_ident,
    ensures
        spec_entry_position(a, ident, i) == spec_entry_position(b, ident, i),
    decreases a.len() - i,
{
    if i < a.len() {
        lemma_same_idents_same_position(a, b, ident, i + 1);
    }
}

/// A found position points at the entry carrying the identifier.
pub proof fn lemma_position_finds(s: Seq<Entry>, ident: EntryIdentifier, i: int)
    requires
        0 <= i,
        spec_entry_position(s, ident, i) >= 0,
    ensures
        i <= spec_entry_position(s, ident, i) < s.len(),
        s[spec_entry_position(s, ident, i)].entry_ident == ident,
    decreases s.len() - i,
{
    if i < s.len() && s[i].entry_ident != ident {
        lemma_position_finds(s, ident, i + 1);
    }
}

/// Appending an entry whose identifier is absent puts it at the end of
/// the scan.
proof fn lemma_position_of_push(s: Seq<Entry>, e: Entry, i: int)
    requires
        0 <= i <= s.len(),
        forall|k: int| i <= k < s.len() ==> s[k].entry_ident != e.entry_ident,
    ensures
        spec_entry_position(s.push(e), e.entry_ident, i) == s.len(),
    decreases s.len() - i,
{
    if i < s.len() {
        assert(s.push(e)[i] == s[i]);
        lemma_position_of_push(s, e, i + 1);
    } else {
        assert(s.push(e)[i] == e);
    }
}

/// Positions before a found one carry other identifiers.
proof fn lemma_position_skips(s: Seq<Entry>, ident: EntryIdentifier, i: int, j: int)
    requires
        0 <= i <= j < spec_entry_position(s, ident, i),
    ensures
        s[j].entry_ident != ident,
    decreases j - i,
{
    lemma_position_finds(s, ident, i);
    if i < j {
        lemma_position_skips(s, ident, i + 1, j);
    }
}

/// If no position holds the identifier, the scan misses.
pub proof fn lemma_absent_means_position_none(s: Seq<Entry>, ident: EntryIdentifier, i: int)
    requires
        0 <= i,
        forall|j: int| i <= j < s.len() ==> s[j].entry_ident != ident,
    ensures
        spec_entry_position(s, ident, i) == -1,
    decreases s.len() - i,
{
    if i < s.len() {
        lemma_absent_means_position_none(s, ident, i + 1);
    }
}

/// If the scan misses, no position holds the identifier.
pub proof fn lemma_position_none_means_absent(s: Seq<Entry>, ident: EntryIdentifier, i: int)
    requires
        0 <= i,
        spec_entry_position(s, ident, i) < 0,
    ensures
        forall|j: int| i <= j < s.len() ==> s[j].entry_ident != ident,
    decreases s.len() - i,
{
    if i < s.len() {
        lemma_position_none_means_absent(s, ident, i + 1);
    }
}

} // verus!
