//! The per-mode handlers that turn user actions into state transitions,
//! and the handlers for server updates and status reports.

pub mod help;
pub mod normal;
pub mod pulseaudio_info;
pub mod pulseaudio_status;
pub mod user_action;
pub mod user_input;
