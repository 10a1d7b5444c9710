//! A supervised actor runtime for a terminal audio mixer, with the
//! application's state model and rendering buffer built on top of it.
//!
//! The runtime routes messages between named mailboxes, applies a
//! respawn-or-retire recovery policy when an actor terminates abnormally,
//! and coordinates shutdown of the whole system.  All routing and
//! supervision decisions are verified; the asynchronous task scheduling
//! and terminal / audio-server I/O live outside the library and drive it
//! through plain events.

pub mod action_handlers;
pub mod actor_system;
pub mod actors;
pub mod models;
pub mod multimap;
pub mod pa;
pub mod ui;
pub mod util;

use vstd::prelude::*;

verus! {

} // verus!
