//! The application's data model: the audio objects the mixer shows, the
//! per-page entry lists, the interaction modes, and the messages the
//! actors exchange.

pub mod actions;
pub mod context_menus;
pub mod entry;
pub mod input_event;
pub mod page_entries;
pub mod page_type;
pub mod redraw;
pub mod state;
pub mod style;
pub mod ui_mode;
