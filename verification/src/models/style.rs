//! The symbolic text styles a theme maps to concrete terminal colors.

use vstd::prelude::*;
use vstd::string::StringExecFns;

verus! {

/// A symbolic style name; the terminal front end decides what each one
/// looks like.
#[derive(Clone, Copy, Debug, PartialEq, Eq, Hash, Structural)]
pub enum Style {
    Normal,
    Muted,
    Bold,
    Inverted,
    Red,
    Green,
    Orange,
}

/// The style a configuration word denotes; unknown words fall back to
/// `Normal`.
pub open spec fn spec_style_of(s: Seq<char>) -> Style {
    if s == "muted"@ {
        Style::Muted
    } else if s == "bold"@ {
        Style::Bold
    } else if s == "inverted"@ {
        Style::Inverted
    } else if s == "red"@ {
        Style::Red
    } else if s == "green"@ {
        Style::Green
    } else if s == "orange"@ {
        Style::Orange
    } else {
        Style::Normal
    }
}

impl Style {
    /// Reads a style from its configuration word.
    pub fn from_name(s: &String) -> (r: Style)
        ensures
            r == spec_style_of(s@),
    {
        if *s == String::from_str("muted") {
            Style::Muted
        } else if *s == String::from_str("bold") {
            Style::Bold
        } else if *s == String::from_str("inverted") {
            Style::Inverted
        } else if *s == String::from_str("red") {
            Style::Red
        } else if *s == String::from_str("green") {
            Style::Green
        } else if *s == String::from_str("orange") {
            Style::Orange
        } else {
            Style::Normal
        }
    }
}

impl Default for Style {
    /// The default style is `Normal`.
    fn default() -> (r: Style)
        ensures
            r == Style::Normal,
    {
        Style::Normal
    }
}

} // verus!
