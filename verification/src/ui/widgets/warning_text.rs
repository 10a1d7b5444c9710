//! A full-screen banner showing one line of warning text, used while
//! the audio-server connection is down.

use vstd::prelude::*;

use crate::models::style::Style;
use crate::ui::buffer::{Buffer, Pixel, Rect};
use crate::ui::errors::UIError;

verus! {

/// The warning banner: a single line of text over a blank screen.
#[derive(Debug)]
pub struct WarningTextWidget {
    /// The text shown in the top-left corner.
    pub text: String,
}

impl WarningTextWidget {
    /// The banner has no layout of its own; any area fits.
    pub fn resize(&mut self, area: Rect) -> (r: Result<(), UIError>)
        ensures
            r is Ok,
            final(self).text == old(self).text,
    {
        let _ = area;
        Result::Ok(())
    }

    /// Blanks the whole surface and writes the warning text into the
    /// top-left corner.
    pub fn render(&self, buffer: &mut Buffer) -> (r: Result<(), UIError>)
        requires
            old(buffer).wf(),
        ensures
            r is Ok,
            final(buffer).wf(),
            final(buffer).width == old(buffer).width,
            final(buffer).height == old(buffer).height,
            final(buffer).spec_shown() == old(buffer).spec_shown(),
            forall|i: int|
                0 <= i < self.text@.len() && i < final(buffer).spec_want().len() ==> final(buffer).spec_want()[i]
                    == (Pixel { text: Option::Some(self.text@[i]), style: Style::Normal }),
    {
        if buffer.width > 0 {
            let area = Rect::new(0, 0, buffer.width, buffer.height);
            buffer.rect(area, ' ', Style::Normal);
        }
        let text = self.text.clone();
        buffer.string(0, 0, text, Style::Normal);
        Result::Ok(())
    }
}

} // verus!
