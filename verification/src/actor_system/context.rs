//! The routing handle handed to every actor and to the host.
//!
//! A [`Ctx`] exposes the two operations of the routing API: send a
//! message to an actor by name, and register a new actor.  Each handle
//! collects its requests in order; the supervisor drains them into the
//! registry with [`crate::actor_system::worker::Worker::apply_request`],
//! which preserves that order, so messages sent by one handle to one
//! mailbox arrive in send order.

use vstd::prelude::*;

use crate::actor_system::messages::Envelope;
use crate::actor_system::worker::ActorBlueprint;

verus! {

/// One request travelling from a routing handle to the supervisor.
#[derive(Debug)]
pub enum Request<P> {
    /// Enqueue the envelope on the mailbox registered under the name.
    SendTo(String, Envelope<P>),
    /// Insert the blueprint and spawn its actor immediately.
    RegisterActor(ActorBlueprint),
}

/// A routing handle: a queue of requests bound for the supervisor.
///
/// Handles are created by [`Ctx::new`] and start empty; the host or an
/// actor fills one during a step and the supervisor drains it afterwards.
#[derive(Debug)]
pub struct Ctx<P> {
    requests: Vec<Request<P>>,
}

impl<P> View for Ctx<P> {
    type V = Seq<Request<P>>;

    closed spec fn view(&self) -> Seq<Request<P>> {
        self.requests@
    }
}

impl<P> Ctx<P> {
    /// An empty handle.
    pub fn new() -> (r: Ctx<P>)
        ensures
            r@ == Seq::<Request<P>>::empty(),
    {
        Ctx { requests: Vec::new() }
    }

    /// Requests that `payload` be enqueued on the mailbox under
    /// `target`.  If no actor is registered there when the supervisor
    /// routes the request, the message is silently dropped.
    pub fn send_to(&mut self, target: String, payload: P)
        ensures
            final(self)@ == old(self)@.push(Request::SendTo(target, Envelope::Payload(payload))),
    {
        self.requests.push(Request::SendTo(target, Envelope::Payload(payload)));
    }

    /// Requests that the `Shutdown` signal be enqueued on the mailbox
    /// under `target`.
    pub fn send_shutdown_to(&mut self, target: String)
        ensures
            final(self)@ == old(self)@.push(Request::SendTo(target, Envelope::Shutdown)),
    {
        self.requests.push(Request::SendTo(target, Envelope::Shutdown));
    }

    /// Requests that `blueprint` be registered and its actor spawned.
    /// The request is accepted into the handle unconditionally; whether
    /// the registration itself is accepted is decided by the supervisor
    /// when the request is drained.
    pub fn register_and_start(&mut self, blueprint: ActorBlueprint)
        ensures
            final(self)@ == old(self)@.push(Request::RegisterActor(blueprint)),
    {
        self.requests.push(Request::RegisterActor(blueprint));
    }

    /// Number of requests waiting in this handle.
    pub fn pending(&self) -> (r: usize)
        ensures
            r == self@.len(),
    {
        self.requests.len()
    }

    /// Hands the collected requests to the caller, in the order they
    /// were made, and leaves the handle empty.
    pub fn drain(&mut self) -> (r: Vec<Request<P>>)
        ensures
            r@ == old(self)@,
            final(self)@ == Seq::<Request<P>>::empty(),
    {
        let mut out: Vec<Request<P>> = Vec::new();
        core::mem::swap(&mut out, &mut self.requests);
        out
    }
}

} // verus!
