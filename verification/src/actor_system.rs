//! The supervised actor runtime: type-erased message envelopes, the
//! routing handle ([`context::Ctx`]), and the supervisor's registry state
//! machine ([`worker::Worker`]).

pub mod context;
pub mod laws;
pub mod messages;
pub mod worker;

use vstd::prelude::*;

verus! {

/// A fresh routing handle and an empty supervisor registry, ready for
/// the host to wire together: requests collected by the handle are
/// drained into the registry with
/// [`worker::Worker::process_context`].
pub fn new<P>() -> (r: (context::Ctx<P>, worker::Worker<P>))
    ensures
        r.0@ == Seq::<context::Request<P>>::empty(),
        r.1@.wf(),
        r.1@.done(),
        !r.1@.shutting_down,
{
    (context::Ctx::new(), worker::Worker::new())
}

} // verus!
