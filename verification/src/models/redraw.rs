//! Which parts of the screen the next render pass must repaint.

use std::collections::HashSet;

use vstd::prelude::*;

verus! {

broadcast use vstd::std_specs::hash::group_hash_axioms;

/// The pending repaint requests accumulated while handling messages.
#[derive(Debug)]
pub struct Redraw {
    /// Repaint the whole entry list.
    pub entries: bool,
    /// Repaint the peak-volume bar of the entry at this list position.
    pub peak_volume: Option<usize>,
    /// Recompute the layout and repaint everything.
    pub resize: bool,
    /// Repaint the entries at these list positions.
    pub affected_entries: HashSet<usize>,
    /// Repaint the context menu (or help) overlay.
    pub context_menu: bool,
}

impl Redraw {
    /// True when the render pass has anything at all to repaint.
    pub open spec fn spec_anything(&self) -> bool {
        self.entries || self.peak_volume is Some || self.resize || self.context_menu
            || !self.affected_entries@.is_empty()
    }

    /// Forgets all pending repaint requests.
    pub fn reset(&mut self)
        ensures
            !final(self).entries,
            final(self).peak_volume is None,
            !final(self).resize,
            !final(self).context_menu,
            final(self).affected_entries@ == Set::<usize>::empty(),
    {
        *self = Redraw::default();
    }

    /// True when the render pass has anything at all to repaint.
    pub fn anything(&self) -> (r: bool)
        ensures
            r == self.spec_anything(),
    {
        self.entries || self.peak_volume.is_some() || self.resize || self.context_menu
            || !self.affected_entries.is_empty()
    }
}

impl Default for Redraw {
    /// A `Redraw` with no pending request.
    fn default() -> (r: Redraw)
        ensures
            !r.entries,
            r.peak_volume is None,
            !r.resize,
            !r.context_menu,
            r.affected_entries@ == Set::<usize>::empty(),
            !r.spec_anything(),
    {
        let r = Redraw {
            entries: false,
            peak_volume: Option::None,
            resize: false,
            affected_entries: HashSet::new(),
            context_menu: false,
        };
        proof {
            assert(r.affected_entries@ =~= Set::<usize>::empty());
        }
        r
    }
}

} // verus!
