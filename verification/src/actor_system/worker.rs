//! The supervisor's registry: one slot per live actor, each owning a
//! FIFO mailbox, plus the state machine that reacts to registrations,
//! terminations, recovery decisions and the shutdown broadcast.
//!
//! The [`Worker`] holds routing and supervision *state* only.  The
//! asynchronous scheduler that actually runs actor tasks lives outside the
//! library; it feeds events into the worker (an actor started, an actor
//! terminated, a recovery hook returned) and obeys the [`Directive`]
//! values handed back.  Every transition of the registry is stated over
//! the mathematical [`RoutingModel`].

use vstd::prelude::*;

use crate::actor_system::context::{Ctx, Request};
use crate::actor_system::messages::Envelope;

verus! {

/// The registry after one routing-handle request was absorbed: a send is
/// routed (drop on miss), a registration is inserted when acceptable and
/// silently refused otherwise.
pub open spec fn applied<P>(m: RoutingModel<P>, req: Request<P>) -> RoutingModel<P> {
    match req {
        Request::SendTo(name, env) => m.routed(name@, env),
        Request::RegisterActor(b) => if m.can_register(b@.name) {
            m.registered(b@)
        } else {
            m
        },
    }
}

/// The registry after a whole request sequence was absorbed in order.
pub open spec fn applied_all<P>(m: RoutingModel<P>, reqs: Seq<Request<P>>) -> RoutingModel<P>
    decreases reqs.len(),
{
    if reqs.len() == 0 {
        m
    } else {
        applied_all(applied(m, reqs[0]), reqs.drop_first())
    }
}

/// The two actor capability variants.
#[derive(Clone, Copy, Debug, PartialEq, Eq, Structural)]
pub enum ActorVariant {
    /// Reacts to one mailbox message at a time through `handle_message`.
    Eventful,
    /// Owns its whole steady-state loop and drains the mailbox itself.
    Continuous,
}

/// How an actor's steady-state loop ended, as reported by its task.
#[derive(Clone, Copy, Debug, PartialEq, Eq, Structural)]
pub enum TerminationCause {
    /// The actor returned voluntarily, typically after observing `Shutdown`.
    Completed,
    /// The actor's code panicked (an irrecoverable fault).
    Panicked,
    /// The actor reported failure through its normal result channel.
    Errored,
}

/// The class of abnormal termination, deciding which recovery hook runs.
#[derive(Clone, Copy, Debug, PartialEq, Eq, Structural)]
pub enum FaultClass {
    /// Routed to the blueprint's `on_panic` hook.
    Panic,
    /// Routed to the blueprint's `on_error` hook.
    Error,
}

/// Where an actor slot stands in its lifecycle.  Terminal states
/// (stopped, retired) are represented by the slot being removed.
#[derive(Clone, Copy, Debug, PartialEq, Eq, Structural)]
pub enum SlotPhase {
    /// A fresh instance is being built and started.
    Spawning,
    /// The steady-state loop is running.
    Running,
    /// The actor terminated abnormally; its recovery hook is being consulted.
    AwaitingDecision(FaultClass),
}

/// Why a registration request was refused.
#[derive(Clone, Copy, Debug, PartialEq, Eq, Structural)]
pub enum RegisterError {
    /// An actor is already registered under this name.
    NameTaken,
    /// The shutdown broadcast has begun; no new actors are accepted.
    ShuttingDown,
}

/// What the outside scheduler must do after an event was absorbed.
#[derive(Clone, Debug, PartialEq, Eq)]
pub enum Directive {
    /// Build a fresh instance from the blueprint's factory, call its
    /// `start`, and report back with `actor_started` or `actor_terminated`.
    SpawnActor(String),
    /// Run the named recovery hook and report its decision back through
    /// `apply_decision`.
    ConsultHook(String, FaultClass),
}

/// The registration descriptor: name, capability variant, and the
/// (constant) decisions of the two recovery hooks.
#[derive(Clone, Debug)]
pub struct ActorBlueprint {
    /// The unique mailbox name.
    pub name: String,
    /// Which capability variant the factory builds.
    pub variant: ActorVariant,
    /// Decision of the panic hook: `true` respawns, `false` retires.
    pub respawn_on_panic: bool,
    /// Decision of the error hook: `true` respawns, `false` retires.
    pub respawn_on_error: bool,
}

/// The mathematical image of a blueprint.
pub struct BlueprintModel {
    pub name: Seq<char>,
    pub variant: ActorVariant,
    pub respawn_on_panic: bool,
    pub respawn_on_error: bool,
}

impl View for ActorBlueprint {
    type V = BlueprintModel;

    open spec fn view(&self) -> BlueprintModel {
        BlueprintModel {
            name: self.name@,
            variant: self.variant,
            respawn_on_panic: self.respawn_on_panic,
            respawn_on_error: self.respawn_on_error,
        }
    }
}

impl ActorBlueprint {
    /// A blueprint whose hooks both retire the actor, until overridden.
    pub fn new(name: String, variant: ActorVariant) -> (r: ActorBlueprint)
        ensures
            r@.name == name@,
            r@.variant == variant,
            !r@.respawn_on_panic,
            !r@.respawn_on_error,
    {
        ActorBlueprint { name, variant, respawn_on_panic: false, respawn_on_error: false }
    }

    /// Sets the decision the panic hook will return.
    pub fn on_panic(self, respawn: bool) -> (r: ActorBlueprint)
        ensures
            r@ == (BlueprintModel { respawn_on_panic: respawn, ..self@ }),
    {
        ActorBlueprint { respawn_on_panic: respawn, ..self }
    }

    /// Sets the decision the error hook will return.
    pub fn on_error(self, respawn: bool) -> (r: ActorBlueprint)
        ensures
            r@ == (BlueprintModel { respawn_on_error: respawn, ..self@ }),
    {
        ActorBlueprint { respawn_on_error: respawn, ..self }
    }
}

/// One live actor slot: its blueprint, its mailbox queue (front of the
/// queue is the next message delivered), and its lifecycle phase.
pub struct ActorSlot<P> {
    blueprint: ActorBlueprint,
    queue: Vec<Envelope<P>>,
    phase: SlotPhase,
}

/// The mathematical image of a slot.
pub struct SlotModel<P> {
    pub blueprint: BlueprintModel,
    pub queue: Seq<Envelope<P>>,
    pub phase: SlotPhase,
}

impl<P> View for ActorSlot<P> {
    type V = SlotModel<P>;

    closed spec fn view(&self) -> SlotModel<P> {
        SlotModel { blueprint: self.blueprint@, queue: self.queue@, phase: self.phase }
    }
}

/// Index of the slot registered under `name`, or `-1` if there is none,
/// scanning from position `i`.
pub open spec fn find_from<P>(slots: Seq<SlotModel<P>>, name: Seq<char>, i: int) -> int
    decreases slots.len() - i,
{
    if i < 0 || i >= slots.len() {
        -1
    } else if slots[i].blueprint.name == name {
        i
    } else {
        find_from(slots, name, i + 1)
    }
}

/// The mathematical image of the whole registry.
pub struct RoutingModel<P> {
    pub slots: Seq<SlotModel<P>>,
    pub shutting_down: bool,
}

impl<P> RoutingModel<P> {
    /// Index of the slot registered under `name`, or `-1`.
    pub open spec fn slot_index(self, name: Seq<char>) -> int {
        find_from(self.slots, name, 0)
    }

    /// True when some live actor owns the mailbox `name`.
    pub open spec fn routes_to(self, name: Seq<char>) -> bool {
        self.slot_index(name) >= 0
    }

    /// The mailbox contents of the actor registered under `name`.
    pub open spec fn queue_of(self, name: Seq<char>) -> Seq<Envelope<P>> {
        self.slots[self.slot_index(name)].queue
    }

    /// The lifecycle phase of the actor registered under `name`.
    pub open spec fn phase_of(self, name: Seq<char>) -> SlotPhase {
        self.slots[self.slot_index(name)].phase
    }

    /// Names are unique: at most one live actor per name.
    pub open spec fn wf(self) -> bool {
        forall|i: int, j: int|
            0 <= i < j < self.slots.len() ==> self.slots[i].blueprint.name
                != self.slots[j].blueprint.name
    }

    /// The whole system has stopped: every slot reached a terminal state
    /// (stopped or retired) and was removed.
    pub open spec fn done(self) -> bool {
        self.slots.len() == 0
    }

    /// A registration is accepted exactly when the name is free and the
    /// shutdown broadcast has not begun.
    pub open spec fn can_register(self, name: Seq<char>) -> bool {
        !self.shutting_down && !self.routes_to(name)
    }

    /// The registry after a registration was accepted: a new slot with an
    /// empty mailbox, in the `Spawning` phase.
    pub open spec fn registered(self, blueprint: BlueprintModel) -> RoutingModel<P> {
        RoutingModel {
            slots: self.slots.push(
                SlotModel { blueprint, queue: Seq::empty(), phase: SlotPhase::Spawning },
            ),
            ..self
        }
    }

    /// The registry after `env` was sent to `name`: appended to that
    /// mailbox if the name routes anywhere, a silent no-op otherwise.
    pub open spec fn routed(self, name: Seq<char>, env: Envelope<P>) -> RoutingModel<P> {
        if !self.routes_to(name) {
            self
        } else {
            let i = self.slot_index(name);
            RoutingModel {
                slots: self.slots.update(
                    i,
                    SlotModel { queue: self.slots[i].queue.push(env), ..self.slots[i] },
                ),
                ..self
            }
        }
    }

    /// The registry after the front message of `name`'s mailbox was
    /// handed to its actor.
    pub open spec fn popped(self, name: Seq<char>) -> RoutingModel<P> {
        let i = self.slot_index(name);
        RoutingModel {
            slots: self.slots.update(
                i,
                SlotModel { queue: self.slots[i].queue.drop_first(), ..self.slots[i] },
            ),
            ..self
        }
    }

    /// The registry with `name`'s slot moved to `phase`.
    pub open spec fn with_phase(self, name: Seq<char>, phase: SlotPhase) -> RoutingModel<P> {
        let i = self.slot_index(name);
        RoutingModel {
            slots: self.slots.update(i, SlotModel { phase, ..self.slots[i] }),
            ..self
        }
    }

    /// The registry with `name`'s slot removed: the actor stopped or was
    /// retired, and the name is free again.
    pub open spec fn removed(self, name: Seq<char>) -> RoutingModel<P> {
        RoutingModel { slots: self.slots.remove(self.slot_index(name)), ..self }
    }

    /// The registry after the shutdown broadcast: every mailbox gets one
    /// `Shutdown` appended, and no further registration is accepted.
    pub open spec fn broadcasted(self) -> RoutingModel<P> {
        RoutingModel {
            slots: Seq::new(
                self.slots.len(),
                |i: int|
                    SlotModel {
                        queue: self.slots[i].queue.push(Envelope::Shutdown),
                        ..self.slots[i]
                    },
            ),
            shutting_down: true,
        }
    }
}

/// The supervisor's registry.  It is the single writer of the routing
/// table; every mutation goes through one of the methods below, each of
/// which is a total function of the current state and one event.
pub struct Worker<P> {
    slots: Vec<ActorSlot<P>>,
    shutting_down: bool,
}

impl<P> View for Worker<P> {
    type V = RoutingModel<P>;

    closed spec fn view(&self) -> RoutingModel<P> {
        RoutingModel {
            slots: Seq::new(self.slots@.len(), |i: int| self.slots@[i]@),
            shutting_down: self.shutting_down,
        }
    }
}

impl<P> Worker<P> {
    /// An empty registry: nothing routes, nothing is shutting down.
    pub fn new() -> (w: Worker<P>)
        ensures
            w@.wf(),
            w@.done(),
            !w@.shutting_down,
    {
        Worker { slots: Vec::new(), shutting_down: false }
    }

    /// Index of the slot registered under `name`, if any.
    fn find_index(&self, name: &String) -> (r: Option<usize>)
        ensures
            match r {
                Option::Some(i) => self@.slot_index(name@) == i && i < self@.slots.len(),
                Option::None => self@.slot_index(name@) == -1,
            },
    {
        let n = self.slots.len();
        for i in 0..n
            invariant
                n == self@.slots.len(),
                find_from(self@.slots, name@, 0) == find_from(self@.slots, name@, i as int),
        {
            assert(self@.slots[i as int].blueprint.name == self.slots@[i as int]@.blueprint.name);
            if self.slots[i].blueprint.name == *name {
                return Option::Some(i);
            }
            assert(find_from(self@.slots, name@, i as int) == find_from(
                self@.slots,
                name@,
                i as int + 1,
            ));
        }
        Option::None
    }

    /// True when a live actor currently owns the mailbox `name`.
    pub fn is_registered(&self, name: &String) -> (r: bool)
        ensures
            r == self@.routes_to(name@),
    {
        self.find_index(name).is_some()
    }

    /// Number of live actor slots.
    pub fn actor_count(&self) -> (r: usize)
        ensures
            r == self@.slots.len(),
    {
        self.slots.len()
    }

    /// True once the shutdown broadcast has begun.
    pub fn is_shutting_down(&self) -> (r: bool)
        ensures
            r == self@.shutting_down,
    {
        self.shutting_down
    }

    /// True when every actor slot has reached a terminal state: this is
    /// the condition on which the system handle resolves.
    pub fn system_done(&self) -> (r: bool)
        ensures
            r == self@.done(),
    {
        self.slots.len() == 0
    }

    /// The lifecycle phase of the actor under `name`, if one is live.
    pub fn phase_of(&self, name: &String) -> (r: Option<SlotPhase>)
        ensures
            self@.routes_to(name@) ==> r == Option::Some(self@.phase_of(name@)),
            !self@.routes_to(name@) ==> r is None,
    {
        match self.find_index(name) {
            Option::Some(i) => Option::Some(self.slots[i].phase),
            Option::None => Option::None,
        }
    }

    /// Length of the mailbox under `name`, if one is live.
    pub fn queue_len(&self, name: &String) -> (r: Option<usize>)
        ensures
            self@.routes_to(name@) ==> r == Option::Some(self@.queue_of(name@).len() as usize),
            !self@.routes_to(name@) ==> r is None,
    {
        match self.find_index(name) {
            Option::Some(i) => Option::Some(self.slots[i].queue.len()),
            Option::None => Option::None,
        }
    }

    /// The constant decision of the named actor's recovery hook for
    /// faults of class `class`, if the actor is live.
    pub fn hook_decision(&self, name: &String, class: FaultClass) -> (r: Option<bool>)
        ensures
            self@.routes_to(name@) ==> r == Option::Some(
                match class {
                    FaultClass::Panic => self@.slots[self@.slot_index(name@)].blueprint
                        .respawn_on_panic,
                    FaultClass::Error => self@.slots[self@.slot_index(name@)].blueprint
                        .respawn_on_error,
                },
            ),
            !self@.routes_to(name@) ==> r is None,
    {
        match self.find_index(name) {
            Option::Some(i) => Option::Some(
                match class {
                    FaultClass::Panic => self.slots[i].blueprint.respawn_on_panic,
                    FaultClass::Error => self.slots[i].blueprint.respawn_on_error,
                },
            ),
            Option::None => Option::None,
        }
    }

    /// Inserts `blueprint` and asks the scheduler to spawn it.  Rejected
    /// when the name is taken or when shutdown has begun; acceptance is
    /// exactly `can_register`.
    pub fn register(&mut self, blueprint: ActorBlueprint) -> (r: Result<Directive, RegisterError>)
        requires
            old(self)@.wf(),
        ensures
            final(self)@.wf(),
            r is Ok <==> old(self)@.can_register(blueprint@.name),
            r is Ok ==> final(self)@ == old(self)@.registered(blueprint@)
                && r == Result::<Directive, RegisterError>::Ok(
                Directive::SpawnActor(blueprint.name),
            ),
            r is Err ==> final(self)@ == old(self)@,
            old(self)@.shutting_down ==> r == Result::<Directive, RegisterError>::Err(
                RegisterError::ShuttingDown,
            ),
            !old(self)@.shutting_down && old(self)@.routes_to(blueprint@.name) ==> r == Result::<
                Directive,
                RegisterError,
            >::Err(RegisterError::NameTaken),
    {
        if self.shutting_down {
            return Result::Err(RegisterError::ShuttingDown);
        }
        if self.find_index(&blueprint.name).is_some() {
            return Result::Err(RegisterError::NameTaken);
        }
        let name = blueprint.name.clone();
        let slot = ActorSlot { blueprint, queue: Vec::new(), phase: SlotPhase::Spawning };
        let ghost slot_m = slot@;
        self.slots.push(slot);
        proof {
            assert(self@.slots =~= old(self)@.registered(slot_m.blueprint).slots);
            lemma_push_keeps_wf(old(self)@, slot_m);
        }
        Result::Ok(Directive::SpawnActor(name))
    }

    /// Enqueues `env` on the mailbox under `target`.  If no actor is
    /// registered under that name the message is silently dropped: this
    /// is the deliberate fire-and-forget routing policy.
    pub fn send(&mut self, target: &String, env: Envelope<P>)
        requires
            old(self)@.wf(),
        ensures
            final(self)@.wf(),
            final(self)@ == old(self)@.routed(target@, env),
    {
        match self.find_index(target) {
            Option::Some(i) => {
                self.slots[i].queue.push(env);
                proof {
                    assert(self@.slots =~= old(self)@.routed(target@, env).slots);
                    lemma_update_keeps_wf(
                        old(self)@,
                        i as int,
                        self@.slots[i as int],
                    );
                }
            },
            Option::None => {},
        }
    }

    /// Hands out the next message of `name`'s mailbox, in FIFO order.
    pub fn next_message(&mut self, name: &String) -> (r: Option<Envelope<P>>)
        requires
            old(self)@.wf(),
        ensures
            final(self)@.wf(),
            old(self)@.routes_to(name@) && old(self)@.queue_of(name@).len() > 0 ==> r
                == Option::Some(old(self)@.queue_of(name@)[0]) && final(self)@ == old(self)@.popped(name@),
            !(old(self)@.routes_to(name@) && old(self)@.queue_of(name@).len() > 0) ==> r is None
                && final(self)@ == old(self)@,
    {
        match self.find_index(name) {
            Option::Some(i) => {
                if self.slots[i].queue.len() > 0 {
                    let env = self.slots[i].queue.remove(0);
                    proof {
                        assert(self.slots@[i as int]@.queue =~= old(self)@.slots[i as int].queue.drop_first());
                        assert(self@.slots =~= old(self)@.popped(name@).slots);
                        lemma_update_keeps_wf(old(self)@, i as int, self@.slots[i as int]);
                    }
                    Option::Some(env)
                } else {
                    Option::None
                }
            },
            Option::None => Option::None,
        }
    }

    /// Records that the named actor's fresh instance finished `start` and
    /// entered its steady-state loop.
    pub fn actor_started(&mut self, name: &String)
        requires
            old(self)@.wf(),
        ensures
            final(self)@.wf(),
            old(self)@.routes_to(name@) ==> final(self)@ == old(self)@.with_phase(
                name@,
                SlotPhase::Running,
            ),
            !old(self)@.routes_to(name@) ==> final(self)@ == old(self)@,
    {
        match self.find_index(name) {
            Option::Some(i) => {
                self.slots[i].phase = SlotPhase::Running;
                proof {
                    assert(self@.slots =~= old(self)@.with_phase(
                        name@,
                        SlotPhase::Running,
                    ).slots);
                    lemma_update_keeps_wf(old(self)@, i as int, self@.slots[i as int]);
                }
            },
            Option::None => {},
        }
    }

    /// Absorbs the termination of the named actor's task.
    ///
    /// Normal completion removes the slot (the actor stopped; no hook
    /// runs).  A panic or a reported error parks the slot until the
    /// matching recovery hook's decision arrives, and directs the
    /// scheduler to consult that hook.
    pub fn actor_terminated(&mut self, name: &String, cause: TerminationCause) -> (r: Option<
        Directive,
    >)
        requires
            old(self)@.wf(),
        ensures
            final(self)@.wf(),
            !old(self)@.routes_to(name@) ==> final(self)@ == old(self)@ && r is None,
            old(self)@.routes_to(name@) ==> match cause {
                TerminationCause::Completed => final(self)@ == old(self)@.removed(name@)
                    && r is None,
                TerminationCause::Panicked => final(self)@ == old(self)@.with_phase(
                    name@,
                    SlotPhase::AwaitingDecision(FaultClass::Panic),
                ) && r == Option::Some(Directive::ConsultHook(*name, FaultClass::Panic)),
                TerminationCause::Errored => final(self)@ == old(self)@.with_phase(
                    name@,
                    SlotPhase::AwaitingDecision(FaultClass::Error),
                ) && r == Option::Some(Directive::ConsultHook(*name, FaultClass::Error)),
            },
    {
        match self.find_index(name) {
            Option::Some(i) => {
                match cause {
                    TerminationCause::Completed => {
                        self.slots.remove(i);
                        proof {
                            assert(self@.slots =~= old(self)@.removed(name@).slots);
                            lemma_remove_keeps_wf(old(self)@, i as int);
                        }
                        Option::None
                    },
                    TerminationCause::Panicked => {
                        self.slots[i].phase = SlotPhase::AwaitingDecision(FaultClass::Panic);
                        proof {
                            assert(self@.slots =~= old(self)@.with_phase(
                                name@,
                                SlotPhase::AwaitingDecision(FaultClass::Panic),
                            ).slots);
                            lemma_update_keeps_wf(
                                old(self)@,
                                i as int,
                                self@.slots[i as int],
                            );
                        }
                        Option::Some(Directive::ConsultHook(name.clone(), FaultClass::Panic))
                    },
                    TerminationCause::Errored => {
                        self.slots[i].phase = SlotPhase::AwaitingDecision(FaultClass::Error);
                        proof {
                            assert(self@.slots =~= old(self)@.with_phase(
                                name@,
                                SlotPhase::AwaitingDecision(FaultClass::Error),
                            ).slots);
                            lemma_update_keeps_wf(
                                old(self)@,
                                i as int,
                                self@.slots[i as int],
                            );
                        }
                        Option::Some(Directive::ConsultHook(name.clone(), FaultClass::Error))
                    },
                }
            },
            Option::None => Option::None,
        }
    }

    /// Applies a recovery hook's decision for a parked actor.
    ///
    /// `respawn == true` sends the slot back to `Spawning` for a fresh
    /// instance; the prior instance's state is discarded entirely but the
    /// mailbox queue persists, so messages sent during the crash window
    /// are not lost.  `respawn == false` retires the actor permanently
    /// and frees its name.  For a name that is not live or not parked the
    /// event is stale and absorbed without effect.
    pub fn apply_decision(&mut self, name: &String, respawn: bool) -> (r: Option<Directive>)
        requires
            old(self)@.wf(),
        ensures
            final(self)@.wf(),
            !(old(self)@.routes_to(name@) && old(self)@.phase_of(name@) is AwaitingDecision) ==> {
                &&& final(self)@ == old(self)@
                &&& r is None
            },
            old(self)@.routes_to(name@) && old(self)@.phase_of(name@) is AwaitingDecision ==> {
                if respawn {
                    &&& final(self)@ == old(self)@.with_phase(name@, SlotPhase::Spawning)
                    &&& r == Option::Some(Directive::SpawnActor(*name))
                } else {
                    &&& final(self)@ == old(self)@.removed(name@)
                    &&& r is None
                }
            },
    {
        match self.find_index(name) {
            Option::Some(i) => {
                match self.slots[i].phase {
                    SlotPhase::AwaitingDecision(_) => {
                        if respawn {
                            self.slots[i].phase = SlotPhase::Spawning;
                            proof {
                                assert(self@.slots =~= old(self)@.with_phase(
                                    name@,
                                    SlotPhase::Spawning,
                                ).slots);
                                lemma_update_keeps_wf(
                                    old(self)@,
                                    i as int,
                                    self@.slots[i as int],
                                );
                            }
                            Option::Some(Directive::SpawnActor(name.clone()))
                        } else {
                            self.slots.remove(i);
                            proof {
                                assert(self@.slots =~= old(self)@.removed(name@).slots);
                                lemma_remove_keeps_wf(old(self)@, i as int);
                            }
                            Option::None
                        }
                    },
                    _ => Option::None,
                }
            },
            Option::None => Option::None,
        }
    }

    /// Absorbs one request coming from a routing handle.  A send is
    /// routed with the drop-on-miss policy; a registration is accepted
    /// exactly under `can_register`, and hands back the spawn directive.
    pub fn apply_request(&mut self, req: Request<P>) -> (r: Option<Directive>)
        requires
            old(self)@.wf(),
        ensures
            final(self)@.wf(),
            final(self)@ == applied(old(self)@, req),
            r is Some ==> req is RegisterActor,
    {
        match req {
            Request::SendTo(name, env) => {
                self.send(&name, env);
                Option::None
            },
            Request::RegisterActor(blueprint) => {
                match self.register(blueprint) {
                    Result::Ok(d) => Option::Some(d),
                    Result::Err(_) => Option::None,
                }
            },
        }
    }

    /// Drains a routing handle and absorbs its requests in the order
    /// they were made, collecting the spawn directives for the
    /// scheduler.  This is the single path from handles into the
    /// registry, so the order a handle recorded is the order routed.
    pub fn process_context(&mut self, ctx: &mut Ctx<P>) -> (r: Vec<Directive>)
        requires
            old(self)@.wf(),
        ensures
            final(self)@.wf(),
            final(self)@ == applied_all(old(self)@, old(ctx)@),
            final(ctx)@.len() == 0,
    {
        let mut reqs = ctx.drain();
        let ghost all = reqs@;
        let mut directives: Vec<Directive> = Vec::new();
        let ghost mut seen: int = 0;
        while reqs.len() > 0
            invariant
                self@.wf(),
                0 <= seen <= all.len(),
                reqs@ =~= all.skip(seen),
                applied_all(old(self)@, all) == applied_all(self@, reqs@),
            decreases reqs@.len(),
        {
            let req = reqs.remove(0);
            proof {
                assert(all.skip(seen).drop_first() =~= all.skip(seen + 1));
            }
            let d = self.apply_request(req);
            match d {
                Option::Some(d) => directives.push(d),
                Option::None => {},
            }
            proof {
                seen = seen + 1;
            }
        }
        directives
    }

    /// Broadcasts `Shutdown` to every currently registered mailbox and
    /// closes the registry to new registrations.
    pub fn broadcast_shutdown(&mut self)
        requires
            old(self)@.wf(),
        ensures
            final(self)@.wf(),
            final(self)@ == old(self)@.broadcasted(),
    {
        self.shutting_down = true;
        let n = self.slots.len();
        for i in 0..n
            invariant
                n == self.slots@.len(),
                self.shutting_down,
                self.slots@.len() == old(self).slots@.len(),
                forall|j: int|
                    i <= j < n ==> self.slots@[j]@ == old(self).slots@[j]@,
                forall|j: int|
                    0 <= j < i ==> self.slots@[j]@ == (SlotModel {
                        queue: old(self).slots@[j]@.queue.push(Envelope::Shutdown),
                        ..old(self).slots@[j]@
                    }),
        {
            self.slots[i].queue.push(Envelope::Shutdown);
        }
        proof {
            assert(self@.slots =~= old(self)@.broadcasted().slots);
            lemma_same_names_keeps_wf(old(self)@.broadcasted(), self@, old(self)@);
        }
    }
}

/// Pushing a slot with a free name preserves name uniqueness.
proof fn lemma_push_keeps_wf<P>(m: RoutingModel<P>, slot: SlotModel<P>)
    requires
        m.wf(),
        !m.routes_to(slot.blueprint.name),
    ensures
        (RoutingModel { slots: m.slots.push(slot), ..m }).wf(),
{
    lemma_find_from_none_means_absent(m.slots, slot.blueprint.name, 0);
}

/// Updating a slot without changing its name preserves name uniqueness.
proof fn lemma_update_keeps_wf<P>(m: RoutingModel<P>, i: int, slot: SlotModel<P>)
    requires
        m.wf(),
        0 <= i < m.slots.len(),
        slot.blueprint.name == m.slots[i].blueprint.name,
    ensures
        (RoutingModel { slots: m.slots.update(i, slot), ..m }).wf(),
{
}

/// Removing a slot preserves name uniqueness.
proof fn lemma_remove_keeps_wf<P>(m: RoutingModel<P>, i: int)
    requires
        m.wf(),
        0 <= i < m.slots.len(),
    ensures
        (RoutingModel { slots: m.slots.remove(i), ..m }).wf(),
{
}

/// A registry whose slots carry the same names as a well-formed one is
/// itself well-formed.
proof fn lemma_same_names_keeps_wf<P>(a: RoutingModel<P>, b: RoutingModel<P>, w: RoutingModel<P>)
    requires
        w.wf(),
        a.slots.len() == w.slots.len(),
        b.slots.len() == w.slots.len(),
        forall|i: int|
            0 <= i < w.slots.len() ==> a.slots[i].blueprint.name == w.slots[i].blueprint.name
                && b.slots[i].blueprint.name == w.slots[i].blueprint.name,
    ensures
        a.wf(),
        b.wf(),
{
}

/// If the scan from the front finds nothing, no index holds the name.
pub proof fn lemma_find_from_none_means_absent<P>(
    slots: Seq<SlotModel<P>>,
    name: Seq<char>,
    i: int,
)
    requires
        find_from(slots, name, i) < 0,
        0 <= i <= slots.len(),
    ensures
        forall|j: int| i <= j < slots.len() ==> slots[j].blueprint.name != name,
    decreases slots.len() - i,
{
    if i < slots.len() {
        lemma_find_from_none_means_absent(slots, name, i + 1);
    }
}

} // verus!
