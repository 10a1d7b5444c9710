//! The audio-server command planner: turns routed commands into the
//! concrete introspection operations the back end must perform.

pub mod pa_actions;
