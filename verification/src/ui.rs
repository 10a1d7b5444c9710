//! The terminal surface model: a cell buffer with change tracking that
//! turns state updates into a minimal list of draw commands, plus the
//! widgets that paint into it.  The terminal itself is driven outside
//! the library, from the command list.

pub mod buffer;
pub mod errors;
pub mod widgets;

use vstd::prelude::*;

verus! {

/// The drawing state of the application: the screen buffer the widgets
/// paint into.
#[derive(Debug)]
pub struct UI {
    pub buffer: buffer::Buffer,
}

impl Default for UI {
    /// A zero-sized surface, resized when the terminal reports its size.
    fn default() -> (r: UI)
        ensures
            r.buffer.wf(),
            r.buffer.width == 0,
            r.buffer.height == 0,
    {
        UI { buffer: buffer::Buffer::new() }
    }
}

} // verus!
