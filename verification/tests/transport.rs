use sse_bridge::counter::CounterService;
use sse_bridge::external::{ExternalA, ExternalB, ExternalState};
use sse_bridge::keepalive::{KeepAliveSchedule, DEFAULT_KEEP_ALIVE_INTERVAL_MS};
use sse_bridge::message::{decode_message, Event, Message, TransportError};
use sse_bridge::mount::{hello_world, Composed, HostState};
use sse_bridge::registry::Registry;

fn msg(id: u64, method: &str) -> Message {
    Message { id, method: method.to_string() }
}

#[test]
fn scenario_increment_session() {
    let mut reg = Registry::new();

    let grant = reg.open_stream(None).unwrap();
    let s1 = grant.session_id;

    reg.post_message(s1, msg(1, "increment")).unwrap();
    assert!(reg.dispatch_session(s1).unwrap());
    let evs = reg.take_events(s1, grant.epoch).unwrap().unwrap();
    assert_eq!(evs, vec![Event::Response { id: 1, result: 1 }]);

    reg.post_message(s1, msg(2, "increment")).unwrap();
    assert!(reg.dispatch_session(s1).unwrap());
    let evs = reg.take_events(s1, grant.epoch).unwrap().unwrap();
    assert_eq!(evs, vec![Event::Response { id: 2, result: 2 }]);

    assert!(reg.delete_session(s1));
    assert_eq!(
        reg.post_message(s1, msg(3, "increment")),
        Err(TransportError::SessionNotFound)
    );
}

#[test]
fn events_follow_post_order() {
    let mut reg = Registry::new();
    let grant = reg.open_stream(None).unwrap();
    let id = grant.session_id;

    reg.post_message(id, msg(7, "increment")).unwrap();
    reg.post_message(id, msg(8, "bogus")).unwrap();
    reg.post_message(id, msg(9, "increment")).unwrap();
    reg.dispatch_all(id).unwrap();

    let evs = reg.take_events(id, grant.epoch).unwrap().unwrap();
    let ids: Vec<u64> = evs
        .iter()
        .filter_map(|e| match e {
            Event::Response { id, .. } => Some(*id),
            Event::Error { id, .. } => Some(*id),
            Event::Ping => None,
        })
        .collect();
    assert_eq!(ids, vec![7, 8, 9]);
}

#[test]
fn second_stream_supersedes_first() {
    let mut reg = Registry::new();
    let first = reg.open_stream(None).unwrap();
    let id = first.session_id;

    reg.post_message(id, msg(1, "increment")).unwrap();
    reg.dispatch_session(id).unwrap();

    let second = reg.open_stream(Some(id)).unwrap();
    assert_eq!(second.session_id, id);
    assert_ne!(second.epoch, first.epoch);

    // The stale writer sees its termination cue and no events.
    assert_eq!(reg.take_events(id, first.epoch).unwrap(), None);
    // The live writer gets every event exactly once.
    let evs = reg.take_events(id, second.epoch).unwrap().unwrap();
    assert_eq!(evs, vec![Event::Response { id: 1, result: 1 }]);
    // Nothing is left for anyone: no event reaches two writers.
    assert_eq!(reg.take_events(id, second.epoch).unwrap(), Some(vec![]));
    assert_eq!(reg.take_events(id, first.epoch).unwrap(), None);
}

#[test]
fn delete_is_idempotent_success() {
    let mut reg = Registry::new();
    // Deleting a never-created session reports "already absent".
    assert!(!reg.delete_session(42));

    let grant = reg.open_stream(None).unwrap();
    let id = grant.session_id;
    assert!(reg.delete_session(id));
    assert!(!reg.delete_session(id));
    assert_eq!(
        reg.post_message(id, msg(1, "increment")),
        Err(TransportError::SessionNotFound)
    );
}

#[test]
fn keep_alive_fires_on_the_interval() {
    let mut sched = KeepAliveSchedule::new(15_000, 0);
    assert!(!sched.poll(10_000));
    assert!(sched.poll(15_000));
    assert!(!sched.poll(20_000));
    assert!(sched.poll(30_000));
    assert_eq!(DEFAULT_KEEP_ALIVE_INTERVAL_MS, 15_000);
}

#[test]
fn pings_reach_open_sessions_only() {
    let mut reg = Registry::new();
    let a = reg.open_stream(None).unwrap();
    let b = reg.open_stream(None).unwrap();

    reg.keep_alive_tick();
    let evs_a = reg.take_events(a.session_id, a.epoch).unwrap().unwrap();
    assert_eq!(evs_a, vec![Event::Ping]);
    let evs_b = reg.take_events(b.session_id, b.epoch).unwrap().unwrap();
    assert_eq!(evs_b, vec![Event::Ping]);

    reg.delete_session(a.session_id);
    reg.keep_alive_tick();
    // The deleted session is gone; no ping can ever be queued for it.
    assert_eq!(
        reg.take_events(a.session_id, a.epoch),
        Err(TransportError::SessionNotFound)
    );
    let evs_b = reg.take_events(b.session_id, b.epoch).unwrap().unwrap();
    assert_eq!(evs_b, vec![Event::Ping]);
}

#[test]
fn sessions_are_isolated() {
    let mut reg = Registry::new();
    let a = reg.open_stream(None).unwrap();
    let b = reg.open_stream(None).unwrap();
    assert_ne!(a.session_id, b.session_id);

    reg.post_message(a.session_id, msg(1, "increment")).unwrap();
    reg.post_message(a.session_id, msg(2, "increment")).unwrap();
    reg.post_message(b.session_id, msg(1, "increment")).unwrap();
    reg.dispatch_all(a.session_id).unwrap();
    reg.dispatch_all(b.session_id).unwrap();

    assert_eq!(reg.lookup(a.session_id).unwrap().service.value, 2);
    assert_eq!(reg.lookup(b.session_id).unwrap().service.value, 1);
    assert!(reg.lookup(99).is_none());

    let evs_a = reg.take_events(a.session_id, a.epoch).unwrap().unwrap();
    assert_eq!(
        evs_a,
        vec![
            Event::Response { id: 1, result: 1 },
            Event::Response { id: 2, result: 2 },
        ]
    );
    // The second session never observes the first one's count.
    let evs_b = reg.take_events(b.session_id, b.epoch).unwrap().unwrap();
    assert_eq!(evs_b, vec![Event::Response { id: 1, result: 1 }]);
}

#[test]
fn unknown_method_answers_correlated_error() {
    let mut svc = CounterService::new();
    let ev = svc.handle(&msg(5, "decrement"));
    assert_eq!(ev, Event::Error { id: 5, code: -32601 });
    assert_eq!(svc.value, 0);
}

#[test]
fn counter_overflow_answers_internal_error() {
    let mut svc = CounterService { value: u64::MAX };
    let ev = svc.handle(&msg(6, "increment"));
    assert_eq!(ev, Event::Error { id: 6, code: -32603 });
    assert_eq!(svc.value, u64::MAX);
}

#[test]
fn malformed_bodies_are_rejected() {
    assert_eq!(
        decode_message(None, Some("increment".to_string())),
        Err(TransportError::MalformedMessage)
    );
    assert_eq!(decode_message(Some(1), None), Err(TransportError::MalformedMessage));
    let m = decode_message(Some(4), Some("increment".to_string())).unwrap();
    assert_eq!(m.id, 4);
    assert_eq!(m.method, "increment");
}

#[test]
fn exhausted_id_space_is_a_request_failure() {
    let mut reg = Registry { sessions: Vec::new(), next_id: u64::MAX };
    assert_eq!(reg.open_session(), Err(TransportError::RegistryExhausted));
    assert_eq!(
        reg.open_stream(None).map(|g| g.session_id),
        Err(TransportError::RegistryExhausted)
    );
}

#[test]
fn resume_of_unknown_session_is_rejected() {
    let mut reg = Registry::new();
    assert_eq!(
        reg.open_stream(Some(99)).map(|g| g.session_id),
        Err(TransportError::SessionNotFound)
    );
}

#[test]
fn host_route_is_unaffected_by_sessions() {
    let mut reg = Registry::new();
    let grant = reg.open_stream(None).unwrap();
    reg.post_message(grant.session_id, msg(1, "increment")).unwrap();

    let composed = Composed::new(HostState { data: "state".to_string() }, reg);
    assert_eq!(hello_world(&composed), "Hello world! state");
    // And the transport substate keeps its identity alongside.
    assert!(composed.transport().contains(grant.session_id));
}

#[test]
fn shutdown_closes_every_session() {
    let mut reg = Registry::new();
    let a = reg.open_stream(None).unwrap();
    let b = reg.open_stream(None).unwrap();
    reg.shutdown();
    assert!(reg.lookup(a.session_id).is_none());
    assert!(reg.lookup(b.session_id).is_none());
    // Ids are never reused: a later session gets a fresh id.
    let c = reg.open_stream(None).unwrap();
    assert_ne!(c.session_id, a.session_id);
    assert_ne!(c.session_id, b.session_id);
}

#[test]
fn external_dependencies_answer_their_values() {
    assert_eq!(ExternalA {}.get_value(), "A");
    assert_eq!(ExternalB {}.get_value(), "B");
}
