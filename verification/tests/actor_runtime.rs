//! The supervised runtime, driven as a host would drive it: FIFO
//! routing, drop on miss, respawn and retire, and coordinated shutdown.

use rsmixer::actor_system::context::{Ctx, Request};
use rsmixer::actor_system::messages::Envelope;
use rsmixer::actor_system::worker::{
    ActorBlueprint, ActorVariant, Directive, FaultClass, RegisterError, SlotPhase,
    TerminationCause, Worker,
};

fn blueprint(name: &str) -> ActorBlueprint {
    ActorBlueprint::new(name.to_string(), ActorVariant::Eventful)
        .on_panic(true)
        .on_error(false)
}

#[test]
fn register_and_route_one_message() {
    let mut w: Worker<u64> = Worker::new();
    let d = w.register(blueprint("a")).unwrap();
    assert!(matches!(d, Directive::SpawnActor(n) if n == "a"));
    assert!(w.is_registered(&"a".to_string()));
    w.send(&"a".to_string(), Envelope::Payload(7));
    assert_eq!(w.queue_len(&"a".to_string()), Some(1));
    let m = w.next_message(&"a".to_string());
    assert!(matches!(m, Some(Envelope::Payload(7))));
    assert_eq!(w.queue_len(&"a".to_string()), Some(0));
}

#[test]
fn fifo_per_mailbox_with_unrelated_traffic() {
    let mut w: Worker<u64> = Worker::new();
    w.register(blueprint("a")).unwrap();
    w.register(blueprint("b")).unwrap();
    let mut ctx: Ctx<u64> = Ctx::new();
    for i in 0..50u64 {
        ctx.send_to("a".to_string(), i);
        // Unrelated traffic between every two sends to "a".
        ctx.send_to("b".to_string(), 1000 + i);
    }
    let directives = w.process_context(&mut ctx);
    assert!(directives.is_empty());
    for i in 0..50u64 {
        match w.next_message(&"a".to_string()) {
            Some(Envelope::Payload(v)) => assert_eq!(v, i),
            other => panic!("expected payload, got {other:?}"),
        }
    }
    assert_eq!(w.queue_len(&"a".to_string()), Some(0));
    assert_eq!(w.queue_len(&"b".to_string()), Some(50));
}

#[test]
fn send_to_nonexistent_is_silently_dropped() {
    let mut w: Worker<u64> = Worker::new();
    w.register(blueprint("a")).unwrap();
    w.send(&"a".to_string(), Envelope::Payload(1));
    // No registered actor under this name: never blocks, never panics,
    // no observable effect.
    w.send(&"nonexistent".to_string(), Envelope::Payload(99));
    assert_eq!(w.actor_count(), 1);
    assert_eq!(w.queue_len(&"a".to_string()), Some(1));
    assert_eq!(w.queue_len(&"nonexistent".to_string()), None);
}

#[test]
fn duplicate_name_is_rejected() {
    let mut w: Worker<u64> = Worker::new();
    w.register(blueprint("a")).unwrap();
    let r = w.register(blueprint("a"));
    assert!(matches!(r, Err(RegisterError::NameTaken)));
    assert_eq!(w.actor_count(), 1);
}

#[test]
fn registration_during_shutdown_is_rejected() {
    let mut w: Worker<u64> = Worker::new();
    w.register(blueprint("a")).unwrap();
    w.broadcast_shutdown();
    let r = w.register(blueprint("b"));
    assert!(matches!(r, Err(RegisterError::ShuttingDown)));
}

/// A counter actor instance, rebuilt from scratch on each (re)spawn.
struct Counter {
    handled: u64,
}

#[test]
fn respawn_resets_state_but_keeps_mailbox() {
    let mut w: Worker<u64> = Worker::new();
    w.register(blueprint("c")).unwrap();
    w.actor_started(&"c".to_string());

    // A fresh instance handles two messages, then panics.
    let mut instance = Counter { handled: 0 };
    w.send(&"c".to_string(), Envelope::Payload(1));
    w.send(&"c".to_string(), Envelope::Payload(2));
    for _ in 0..2 {
        match w.next_message(&"c".to_string()) {
            Some(Envelope::Payload(_)) => instance.handled += 1,
            other => panic!("expected payload, got {other:?}"),
        }
    }
    assert_eq!(instance.handled, 2);
    let d = w.actor_terminated(&"c".to_string(), TerminationCause::Panicked);
    assert!(matches!(d, Some(Directive::ConsultHook(n, FaultClass::Panic)) if n == "c"));
    assert_eq!(
        w.phase_of(&"c".to_string()),
        Some(SlotPhase::AwaitingDecision(FaultClass::Panic))
    );

    // A message sent during the crash window.
    w.send(&"c".to_string(), Envelope::Payload(3));

    // The panic hook decides to respawn.
    assert_eq!(w.hook_decision(&"c".to_string(), FaultClass::Panic), Some(true));
    let d = w.apply_decision(&"c".to_string(), true);
    assert!(matches!(d, Some(Directive::SpawnActor(n)) if n == "c"));
    assert_eq!(w.phase_of(&"c".to_string()), Some(SlotPhase::Spawning));

    // The fresh instance starts from zero, and the crash-window message
    // is still delivered.
    let mut fresh = Counter { handled: 0 };
    assert_eq!(fresh.handled, 0);
    w.actor_started(&"c".to_string());
    match w.next_message(&"c".to_string()) {
        Some(Envelope::Payload(3)) => fresh.handled += 1,
        other => panic!("crash-window message lost: {other:?}"),
    }
    assert_eq!(fresh.handled, 1);
}

#[test]
fn retire_removes_routing_and_frees_the_name() {
    let mut w: Worker<u64> = Worker::new();
    w.register(blueprint("r")).unwrap();
    w.actor_started(&"r".to_string());
    w.actor_terminated(&"r".to_string(), TerminationCause::Errored);
    // The error hook decides to retire.
    assert_eq!(w.hook_decision(&"r".to_string(), FaultClass::Error), Some(false));
    let d = w.apply_decision(&"r".to_string(), false);
    assert!(d.is_none());
    assert!(!w.is_registered(&"r".to_string()));

    // Subsequent sends are silently dropped.
    w.send(&"r".to_string(), Envelope::Payload(5));
    assert_eq!(w.queue_len(&"r".to_string()), None);

    // Re-registration under the same name succeeds afresh.
    let d = w.register(blueprint("r")).unwrap();
    assert!(matches!(d, Directive::SpawnActor(_)));
    assert_eq!(w.queue_len(&"r".to_string()), Some(0));
}

#[test]
fn coordinated_shutdown_resolves_after_all_stopped_and_not_before() {
    let mut w: Worker<u64> = Worker::new();
    let names = ["a", "b", "c"];
    for n in names {
        w.register(blueprint(n)).unwrap();
        w.actor_started(&n.to_string());
    }
    w.broadcast_shutdown();
    assert!(w.is_shutting_down());
    // Every mailbox received the Shutdown signal.
    for n in names {
        assert_eq!(w.queue_len(&n.to_string()), Some(1));
        let m = w.next_message(&n.to_string());
        assert!(matches!(m, Some(Envelope::Shutdown)));
    }
    // The system handle resolves only after all three stopped.
    for (i, n) in names.iter().enumerate() {
        assert!(!w.system_done(), "resolved before actor {i} stopped");
        let d = w.actor_terminated(&n.to_string(), TerminationCause::Completed);
        assert!(d.is_none());
    }
    assert!(w.system_done());
}

#[test]
fn end_to_end_sum_scenario() {
    // Actor "A" is an Eventful actor summing received integers; actor
    // "B" sends 1, 2, 3 to "A" through its routing handle, then the
    // Shutdown broadcast ends the system.
    let mut w: Worker<u64> = Worker::new();
    w.register(
        ActorBlueprint::new("A".to_string(), ActorVariant::Eventful)
            .on_panic(true)
            .on_error(true),
    )
    .unwrap();
    w.register(
        ActorBlueprint::new("B".to_string(), ActorVariant::Eventful)
            .on_panic(true)
            .on_error(true),
    )
    .unwrap();
    w.actor_started(&"A".to_string());
    w.actor_started(&"B".to_string());

    // B's behavior: send 1, 2, 3 to A.
    let mut b_ctx: Ctx<u64> = Ctx::new();
    for v in [1u64, 2, 3] {
        b_ctx.send_to("A".to_string(), v);
    }
    w.process_context(&mut b_ctx);

    // Shutdown is broadcast to the whole system.
    w.broadcast_shutdown();

    // A's behavior: drain the mailbox one message at a time, summing
    // payloads, stopping on Shutdown.
    let mut a_state = Counter { handled: 0 };
    let mut last_observed = 0u64;
    loop {
        match w.next_message(&"A".to_string()) {
            Some(Envelope::Payload(v)) => {
                a_state.handled += v;
                last_observed = a_state.handled;
            }
            Some(Envelope::Shutdown) => break,
            None => panic!("mailbox ran dry before Shutdown"),
        }
    }
    w.actor_terminated(&"A".to_string(), TerminationCause::Completed);

    // B observes its Shutdown and stops too.
    let m = w.next_message(&"B".to_string());
    assert!(matches!(m, Some(Envelope::Shutdown)));
    w.actor_terminated(&"B".to_string(), TerminationCause::Completed);

    assert!(w.system_done());
    assert_eq!(last_observed, 6);
}

#[test]
fn stale_events_are_absorbed() {
    let mut w: Worker<u64> = Worker::new();
    // Termination and decision events for unknown names change nothing.
    assert!(w.actor_terminated(&"ghost".to_string(), TerminationCause::Panicked).is_none());
    assert!(w.apply_decision(&"ghost".to_string(), true).is_none());
    w.actor_started(&"ghost".to_string());
    assert_eq!(w.actor_count(), 0);
    // A decision for an actor that is not awaiting one is stale.
    w.register(blueprint("a")).unwrap();
    assert!(w.apply_decision(&"a".to_string(), true).is_none());
    assert_eq!(w.phase_of(&"a".to_string()), Some(SlotPhase::Spawning));
}

#[test]
fn context_collects_requests_in_order() {
    let mut ctx: Ctx<u64> = Ctx::new();
    ctx.send_to("x".to_string(), 1);
    ctx.register_and_start(blueprint("y"));
    ctx.send_shutdown_to("x".to_string());
    assert_eq!(ctx.pending(), 3);
    let reqs = ctx.drain();
    assert_eq!(ctx.pending(), 0);
    assert!(matches!(&reqs[0], Request::SendTo(n, Envelope::Payload(1)) if n == "x"));
    assert!(matches!(&reqs[1], Request::RegisterActor(b) if b.name == "y"));
    assert!(matches!(&reqs[2], Request::SendTo(n, Envelope::Shutdown) if n == "x"));
}

#[test]
fn register_through_context_spawns() {
    let mut w: Worker<u64> = Worker::new();
    let mut ctx: Ctx<u64> = Ctx::new();
    ctx.register_and_start(blueprint("dyn"));
    ctx.send_to("dyn".to_string(), 9);
    let directives = w.process_context(&mut ctx);
    assert_eq!(directives.len(), 1);
    assert!(matches!(&directives[0], Directive::SpawnActor(n) if n == "dyn"));
    // The send made after the registration request landed in order.
    assert_eq!(w.queue_len(&"dyn".to_string()), Some(1));
}

#[test]
fn envelope_type_tests() {
    let e: Envelope<u64> = Envelope::Shutdown;
    assert!(e.is_shutdown());
    assert!(e.payload().is_none());
    let e: Envelope<u64> = Envelope::Payload(4);
    assert!(!e.is_shutdown());
    assert_eq!(e.payload_ref(), Some(&4));
    assert_eq!(e.payload(), Some(4));
}
