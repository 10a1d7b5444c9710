//! The application's two actors: the eventful event loop that owns the
//! whole mixer state, and the continuous input reader.

pub mod event_loop_actor;
pub mod input_actor;

use vstd::prelude::*;

verus! {

/// An actor instance, over the closed set of actors this application
/// registers.
pub enum Actor {
    /// The event loop: reacts to one mailbox message at a time.
    Eventful(event_loop_actor::EventLoopActor),
    /// The input reader: owns its own loop racing the terminal against
    /// its mailbox.
    Continuous(input_actor::InputActor),
}

} // verus!
