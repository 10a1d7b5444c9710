//! The widgets that paint into the screen buffer.

pub mod help;
pub mod volume_input;
pub mod warning_text;
