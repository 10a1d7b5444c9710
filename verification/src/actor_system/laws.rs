//! Delivery and supervision guarantees of the runtime, stated and proved
//! over the registry's mathematical model.
//!
//! Each public proof function here is one guarantee the runtime gives its
//! users; the transitions they speak of are exactly the ones the
//! [`crate::actor_system::worker::Worker`] methods promise in their
//! contracts.

use vstd::prelude::*;

use crate::actor_system::context::Request;
use crate::actor_system::messages::Envelope;
use crate::actor_system::worker::{applied_all, find_from, RoutingModel, SlotModel, SlotPhase};

verus! {

/// The registry after the envelopes of `msgs` were sent to `name` one
/// after the other, in order.
pub open spec fn sent_all<P>(
    m: RoutingModel<P>,
    name: Seq<char>,
    msgs: Seq<Envelope<P>>,
) -> RoutingModel<P>
    decreases msgs.len(),
{
    if msgs.len() == 0 {
        m
    } else {
        sent_all(m.routed(name, msgs[0]), name, msgs.drop_first())
    }
}

/// A found index points at a slot carrying the searched name.
pub proof fn lemma_find_from_finds<P>(slots: Seq<SlotModel<P>>, name: Seq<char>, i: int)
    requires
        0 <= i,
        find_from(slots, name, i) >= 0,
    ensures
        i <= find_from(slots, name, i) < slots.len(),
        slots[find_from(slots, name, i)].blueprint.name == name,
    decreases slots.len() - i,
{
    if i < slots.len() && slots[i].blueprint.name != name {
        lemma_find_from_finds(slots, name, i + 1);
    }
}

/// If no slot from position `i` on carries the name, the scan misses.
pub proof fn lemma_absent_means_find_from_none<P>(
    slots: Seq<SlotModel<P>>,
    name: Seq<char>,
    i: int,
)
    requires
        0 <= i,
        forall|j: int| i <= j < slots.len() ==> slots[j].blueprint.name != name,
    ensures
        find_from(slots, name, i) == -1,
    decreases slots.len() - i,
{
    if i < slots.len() {
        lemma_absent_means_find_from_none(slots, name, i + 1);
    }
}

/// Two slot sequences that carry the same names in the same positions
/// are scanned identically.
pub proof fn lemma_same_names_same_find<P>(
    a: Seq<SlotModel<P>>,
    b: Seq<SlotModel<P>>,
    name: Seq<char>,
    i: int,
)
    requires
        0 <= i,
        a.len() == b.len(),
        forall|k: int| 0 <= k < a.len() ==> a[k].blueprint.name == b[k].blueprint.name,
    ensures
        find_from(a, name, i) == find_from(b, name, i),
    decreases a.len() - i,
{
    if i < a.len() {
        lemma_same_names_same_find(a, b, name, i + 1);
    }
}

/// Sending to a registered mailbox leaves every slot's name, and hence
/// the whole routing relation, unchanged, and appends to that one queue.
pub proof fn lemma_routed_step<P>(m: RoutingModel<P>, name: Seq<char>, env: Envelope<P>)
    requires
        m.wf(),
        m.routes_to(name),
    ensures
        m.routed(name, env).wf(),
        m.routed(name, env).routes_to(name),
        m.routed(name, env).slot_index(name) == m.slot_index(name),
        m.routed(name, env).queue_of(name) == m.queue_of(name).push(env),
        m.routed(name, env).slots.len() == m.slots.len(),
        forall|other: Seq<char>|
            #[trigger] m.routed(name, env).slot_index(other) == m.slot_index(other),
{
    let post = m.routed(name, env);
    lemma_find_from_finds(m.slots, name, 0);
    assert(post.slots.len() == m.slots.len());
    assert(forall|k: int|
        0 <= k < m.slots.len() ==> post.slots[k].blueprint.name == m.slots[k].blueprint.name);
    assert forall|other: Seq<char>| #[trigger]
        post.slot_index(other) == m.slot_index(other) by {
        lemma_same_names_same_find(post.slots, m.slots, other, 0);
    }
}

/// Mailbox FIFO: a sequence of messages sent by one handle to one actor
/// name lands at the back of that actor's queue in exactly the order it
/// was sent.  The actor drains the queue from the front, so it observes
/// the messages in send order.
pub proof fn lemma_fifo_delivery<P>(m: RoutingModel<P>, name: Seq<char>, msgs: Seq<Envelope<P>>)
    requires
        m.wf(),
        m.routes_to(name),
    ensures
        sent_all(m, name, msgs).wf(),
        sent_all(m, name, msgs).routes_to(name),
        sent_all(m, name, msgs).queue_of(name) == m.queue_of(name) + msgs,
    decreases msgs.len(),
{
    if msgs.len() == 0 {
        assert(m.queue_of(name) + msgs =~= m.queue_of(name));
    } else {
        let m1 = m.routed(name, msgs[0]);
        lemma_routed_step(m, name, msgs[0]);
        lemma_fifo_delivery(m1, name, msgs.drop_first());
        assert(m.queue_of(name).push(msgs[0]) + msgs.drop_first() =~= m.queue_of(name) + msgs);
    }
}

/// The envelopes a request sequence carries, in order, assuming every
/// request is a send.
pub open spec fn spec_sent_envelopes<P>(reqs: Seq<Request<P>>) -> Seq<Envelope<P>> {
    Seq::new(
        reqs.len(),
        |i: int|
            match reqs[i] {
                Request::SendTo(_, e) => e,
                Request::RegisterActor(_) => Envelope::Shutdown,
            },
    )
}

/// Mailbox FIFO along the whole path: a routing handle's request queue,
/// holding only sends to one registered actor, lands at the back of
/// that actor's mailbox in exactly the order the handle recorded.
pub proof fn lemma_context_requests_fifo<P>(
    m: RoutingModel<P>,
    name: Seq<char>,
    reqs: Seq<Request<P>>,
)
    requires
        m.wf(),
        m.routes_to(name),
        forall|k: int|
            0 <= k < reqs.len() ==> match #[trigger] reqs[k] {
                Request::SendTo(n, _) => n@ == name,
                Request::RegisterActor(_) => false,
            },
    ensures
        applied_all(m, reqs).wf(),
        applied_all(m, reqs).routes_to(name),
        applied_all(m, reqs).queue_of(name) == m.queue_of(name) + spec_sent_envelopes(reqs),
    decreases reqs.len(),
{
    if reqs.len() == 0 {
        assert(m.queue_of(name) + spec_sent_envelopes(reqs) =~= m.queue_of(name));
    } else {
        let env = spec_sent_envelopes(reqs)[0];
        let m1 = m.routed(name, env);
        lemma_routed_step(m, name, env);
        lemma_context_requests_fifo(m1, name, reqs.drop_first());
        assert(spec_sent_envelopes(reqs.drop_first()) =~= spec_sent_envelopes(reqs).drop_first());
        assert(m.queue_of(name).push(env) + spec_sent_envelopes(reqs).drop_first() =~= m.queue_of(
            name,
        ) + spec_sent_envelopes(reqs));
    }
}

/// Unrelated traffic does not disturb a mailbox: sending to a different
/// name never changes what `name`'s queue holds.
pub proof fn lemma_unrelated_send_leaves_queue<P>(
    m: RoutingModel<P>,
    name: Seq<char>,
    other: Seq<char>,
    env: Envelope<P>,
)
    requires
        m.wf(),
        m.routes_to(name),
        other != name,
    ensures
        m.routed(other, env).routes_to(name),
        m.routed(other, env).queue_of(name) == m.queue_of(name),
{
    if m.routes_to(other) {
        lemma_routed_step(m, other, env);
        lemma_find_from_finds(m.slots, name, 0);
        lemma_find_from_finds(m.slots, other, 0);
        lemma_same_names_same_find(m.routed(other, env).slots, m.slots, name, 0);
    }
}

/// Drop on miss: sending to a name under which no actor is registered
/// is a complete no-op on the registry.
pub proof fn lemma_send_to_missing_is_noop<P>(
    m: RoutingModel<P>,
    name: Seq<char>,
    env: Envelope<P>,
)
    requires
        !m.routes_to(name),
    ensures
        m.routed(name, env) == m,
{
}

/// Retirement frees the name: after the slot under `name` is removed,
/// nothing routes there any more, a further send to it is a no-op, and
/// (while no shutdown is in progress) a fresh registration under the
/// same name is accepted again.
pub proof fn lemma_retire_frees_name<P>(m: RoutingModel<P>, name: Seq<char>, env: Envelope<P>)
    requires
        m.wf(),
        m.routes_to(name),
    ensures
        m.removed(name).wf(),
        !m.removed(name).routes_to(name),
        m.removed(name).routed(name, env) == m.removed(name),
        !m.shutting_down ==> m.removed(name).can_register(name),
{
    let i = m.slot_index(name);
    let post = m.removed(name);
    lemma_find_from_finds(m.slots, name, 0);
    assert forall|j: int| 0 <= j < post.slots.len() implies post.slots[j].blueprint.name
        != name by {
        if j < i {
            lemma_find_from_first(m.slots, name, j);
        } else {
            assert(post.slots[j] == m.slots[j + 1]);
        }
    }
    lemma_absent_means_find_from_none(post.slots, name, 0);
}

/// The scan returns the first index carrying the name: every earlier
/// slot carries a different one.
proof fn lemma_find_from_first<P>(slots: Seq<SlotModel<P>>, name: Seq<char>, j: int)
    requires
        0 <= j < find_from(slots, name, 0),
    ensures
        slots[j].blueprint.name != name,
{
    lemma_find_from_skips(slots, name, 0, j);
}

proof fn lemma_find_from_skips<P>(slots: Seq<SlotModel<P>>, name: Seq<char>, i: int, j: int)
    requires
        0 <= i <= j < find_from(slots, name, i),
    ensures
        slots[j].blueprint.name != name,
    decreases j - i,
{
    lemma_find_from_finds(slots, name, i);
    if i < j {
        lemma_find_from_skips(slots, name, i + 1, j);
    }
}

/// Respawning after a fault keeps the mailbox: moving the slot back to
/// `Spawning` for a fresh instance does not touch its queue, so messages
/// sent during the crash window are still delivered, to the new
/// instance.
pub proof fn lemma_respawn_keeps_mailbox<P>(m: RoutingModel<P>, name: Seq<char>)
    requires
        m.wf(),
        m.routes_to(name),
    ensures
        m.with_phase(name, SlotPhase::Spawning).wf(),
        m.with_phase(name, SlotPhase::Spawning).routes_to(name),
        m.with_phase(name, SlotPhase::Spawning).queue_of(name) == m.queue_of(name),
        m.with_phase(name, SlotPhase::Spawning).phase_of(name) == SlotPhase::Spawning,
{
    let post = m.with_phase(name, SlotPhase::Spawning);
    lemma_find_from_finds(m.slots, name, 0);
    lemma_same_names_same_find(post.slots, m.slots, name, 0);
}

/// The shutdown broadcast reaches every mailbox: each registered actor's
/// queue receives exactly one `Shutdown` at its back, no slot is removed
/// by the broadcast itself, and no further registration is accepted.
pub proof fn lemma_shutdown_reaches_every_mailbox<P>(m: RoutingModel<P>, name: Seq<char>)
    requires
        m.wf(),
        m.routes_to(name),
    ensures
        m.broadcasted().wf(),
        m.broadcasted().slots.len() == m.slots.len(),
        m.broadcasted().routes_to(name),
        m.broadcasted().queue_of(name) == m.queue_of(name).push(Envelope::Shutdown),
        m.broadcasted().shutting_down,
        forall|any: Seq<char>| !m.broadcasted().can_register(any),
{
    let post = m.broadcasted();
    lemma_find_from_finds(m.slots, name, 0);
    lemma_same_names_same_find(post.slots, m.slots, name, 0);
}

/// The system handle resolves only at the end: the registry is done
/// exactly when no slot is left, each stop or retirement removes exactly
/// one slot, and a registry with a live actor is never done.
pub proof fn lemma_resolution_counts<P>(m: RoutingModel<P>, name: Seq<char>)
    requires
        m.wf(),
        m.routes_to(name),
    ensures
        !m.done(),
        m.removed(name).slots.len() == m.slots.len() - 1,
        m.removed(name).done() <==> m.slots.len() == 1,
{
    lemma_find_from_finds(m.slots, name, 0);
}

} // verus!
