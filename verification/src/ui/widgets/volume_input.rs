//! The exact-volume input overlay: a small text box holding the digits
//! the user typed.

use vstd::prelude::*;

verus! {

/// The text box state for entering an exact volume percentage.
#[derive(Debug)]
pub struct VolumeInputWidget {
    /// The digits typed so far.
    pub value: String,
    /// The cursor position within `value`.
    pub cursor: u8,
}

impl Default for VolumeInputWidget {
    /// An empty text box with the cursor at the start.
    fn default() -> (r: VolumeInputWidget)
        ensures
            r.value@ == Seq::<char>::empty(),
            r.cursor == 0,
    {
        VolumeInputWidget { value: String::new(), cursor: 0 }
    }
}

} // verus!
