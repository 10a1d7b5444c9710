//! Message envelopes carried by mailboxes.
//!
//! Every mailbox item is an [`Envelope`]: either the distinguished
//! `Shutdown` signal, which every actor must recognize and act on, or an
//! application payload.  The payload type is a parameter of the whole
//! runtime, so the set of message kinds is a closed union and an actor
//! tests for a kind by ordinary matching.

use vstd::prelude::*;

verus! {

/// A mailbox item: the terminal `Shutdown` signal or an application payload.
#[derive(Clone, Debug, PartialEq, Eq)]
pub enum Envelope<P> {
    /// The distinguished zero-payload message that tells an actor to stop.
    Shutdown,
    /// An ordinary application message.
    Payload(P),
}

impl<P> Envelope<P> {
    /// True exactly when this envelope is the `Shutdown` signal.
    pub fn is_shutdown(&self) -> (r: bool)
        ensures
            r == (self is Shutdown),
    {
        match self {
            Envelope::Shutdown => true,
            Envelope::Payload(_) => false,
        }
    }

    /// The payload, if this envelope carries one.
    pub fn payload(self) -> (r: Option<P>)
        ensures
            self is Payload ==> r == Some(self->Payload_0),
            self is Shutdown ==> r is None,
    {
        match self {
            Envelope::Shutdown => None,
            Envelope::Payload(p) => Some(p),
        }
    }

    /// A borrowed view of the payload, if this envelope carries one.
    pub fn payload_ref(&self) -> (r: Option<&P>)
        ensures
            self is Payload ==> r == Some(&self->Payload_0),
            self is Shutdown ==> r is None,
    {
        match self {
            Envelope::Shutdown => None,
            Envelope::Payload(p) => Some(p),
        }
    }
}

} // verus!
