//! The scrollable help overlay.

use vstd::prelude::*;

verus! {

/// The help overlay's scroll position.
#[derive(Clone, Copy, Debug)]
pub struct HelpWidget {
    /// Index of the first help line shown.
    pub scroll: usize,
}

impl HelpWidget {
    /// Scrolls up by `how_much` lines, stopping at the top.
    pub fn up(&mut self, how_much: usize)
        ensures
            final(self).scroll == if old(self).scroll >= how_much {
                old(self).scroll - how_much
            } else {
                0int
            },
    {
        if self.scroll >= how_much {
            self.scroll = self.scroll - how_much;
        } else {
            self.scroll = 0;
        }
    }

    /// Scrolls down by `how_much` lines, saturating at the end of the
    /// index range.
    pub fn down(&mut self, how_much: usize)
        ensures
            final(self).scroll == if old(self).scroll + how_much <= usize::MAX {
                old(self).scroll + how_much
            } else {
                usize::MAX as int
            },
    {
        if self.scroll <= usize::MAX - how_much {
            self.scroll = self.scroll + how_much;
        } else {
            self.scroll = usize::MAX;
        }
    }
}

impl Default for HelpWidget {
    /// The overlay starts at the top.
    fn default() -> (r: HelpWidget)
        ensures
            r.scroll == 0,
    {
        HelpWidget { scroll: 0 }
    }
}

} // verus!
