use ws_router::client::Client;
use ws_router::router::{
    classify, ConnState, Decoded, Inbound, InboundAction, Params, Registration, ResultKind,
    Router, TransportEvent, KEEPALIVE_INTERVAL_MS,
};
use ws_router::types::{Frame, Method, Value};

fn plain(values: Vec<Value>) -> Params {
    Params { query: None, other: values, notify: None }
}

fn s(text: &str) -> Value {
    Value::Str(text.to_string())
}

fn active() -> Router {
    let mut r = Router::new(0);
    r.on_connected(0);
    r
}

/// Dispatches a call, registers it as sent at `now`, and returns its frame.
fn call(r: &mut Router, id: i64, method: Method, params: Params, reply: u64, now: u64) -> Frame {
    let frame = r.dispatch(id, method, params).expect("a frame to send");
    assert_eq!(r.register(id, method, reply, now), Registration::Registered);
    frame
}

#[test]
fn new_router_is_connecting_and_empty() {
    let r = Router::new(7);
    assert_eq!(r.state, ConnState::Connecting);
    assert!(r.pending.is_empty());
    assert!(r.live.is_empty());
    assert!(r.vars.is_empty());
    assert!(r.replay.is_empty());
    assert_eq!(r.last_activity, 7);
}

#[test]
fn query_parameters_are_flattened() {
    let mut r = active();
    let params = Params { query: Some((s("SELECT 1"), Value::Int(3))), other: vec![s("ignored")], notify: None };
    let frame = r.dispatch(1, Method::Query, params).unwrap();
    assert_eq!(frame, Frame { id: Some(1), method: Method::Query, params: vec![s("SELECT 1"), Value::Int(3)] });
}

#[test]
fn plain_parameters_pass_through() {
    let mut r = active();
    let frame = r.dispatch(4, Method::Select, plain(vec![s("person")])).unwrap();
    assert_eq!(frame, Frame { id: Some(4), method: Method::Select, params: vec![s("person")] });
    assert!(r.replay.is_empty());
}

#[test]
fn duplicate_id_refuses_only_the_later_call() {
    let mut r = active();
    call(&mut r, 5, Method::Query, plain(vec![]), 100, 1);
    r.dispatch(5, Method::Select, plain(vec![])).unwrap();
    assert_eq!(r.register(5, Method::Select, 200, 2), Registration::Duplicate);
    assert_eq!(r.pending.get(&5), Some(&(Method::Query, 100)));
    let action = r.on_inbound(&Inbound::Reply { id: 5, ok: true }, 3);
    assert_eq!(action, InboundAction::Deliver { reply: 100 });
}

#[test]
fn replies_in_permuted_order_reach_their_callers() {
    let mut r = active();
    for id in 1..=5i64 {
        call(&mut r, id, Method::Query, plain(vec![]), 1000 + id as u64, 0);
    }
    for id in [3i64, 1, 5, 2, 4] {
        let action = r.on_inbound(&Inbound::Reply { id, ok: true }, 1);
        assert_eq!(action, InboundAction::Deliver { reply: 1000 + id as u64 });
    }
    assert!(r.pending.is_empty());
}

#[test]
fn second_reply_for_an_id_is_discarded() {
    let mut r = active();
    call(&mut r, 9, Method::Query, plain(vec![]), 90, 0);
    assert_eq!(r.on_inbound(&Inbound::Reply { id: 9, ok: true }, 1), InboundAction::Deliver { reply: 90 });
    assert_eq!(r.on_inbound(&Inbound::Reply { id: 9, ok: true }, 2), InboundAction::Discard);
    assert_eq!(r.on_inbound(&Inbound::Undecodable { recovered: Some(9) }, 3), InboundAction::Discard);
}

#[test]
fn reply_for_unknown_id_is_discarded() {
    let mut r = active();
    assert_eq!(r.on_inbound(&Inbound::Reply { id: 42, ok: true }, 5), InboundAction::Discard);
    assert_eq!(r.last_activity, 5);
}

#[test]
fn undecodable_frame_with_recovered_id_reaches_its_caller() {
    let mut r = active();
    call(&mut r, 3, Method::Query, plain(vec![]), 30, 0);
    assert_eq!(
        r.on_inbound(&Inbound::Undecodable { recovered: Some(3) }, 1),
        InboundAction::DeliverError { reply: 30 }
    );
    assert!(r.pending.is_empty());
}

#[test]
fn undecodable_frame_without_id_is_unroutable() {
    let mut r = active();
    call(&mut r, 3, Method::Query, plain(vec![]), 30, 0);
    assert_eq!(r.on_inbound(&Inbound::Undecodable { recovered: None }, 1), InboundAction::Discard);
    assert_eq!(r.pending.len(), 1);
}

#[test]
fn set_variable_commits_only_on_success() {
    let mut r = active();
    call(&mut r, 1, Method::Let, plain(vec![s("a"), Value::Int(1)]), 10, 0);
    assert!(r.vars.is_empty());
    assert_eq!(r.var_stash.len(), 1);
    assert_eq!(r.on_inbound(&Inbound::Reply { id: 1, ok: true }, 1), InboundAction::Deliver { reply: 10 });
    assert_eq!(r.vars.get("a"), Some(&Value::Int(1)));
    assert!(r.var_stash.is_empty());
}

#[test]
fn failed_set_variable_is_not_committed() {
    let mut r = active();
    call(&mut r, 1, Method::Let, plain(vec![s("a"), Value::Int(1)]), 10, 0);
    assert_eq!(r.on_inbound(&Inbound::Reply { id: 1, ok: false }, 1), InboundAction::Deliver { reply: 10 });
    assert!(r.vars.is_empty());
    assert!(r.var_stash.is_empty());
}

#[test]
fn unset_removes_a_committed_variable_at_once() {
    let mut r = active();
    call(&mut r, 1, Method::Let, plain(vec![s("a"), Value::Int(1)]), 10, 0);
    call(&mut r, 2, Method::Let, plain(vec![s("b"), Value::Bool(true)]), 11, 0);
    r.on_inbound(&Inbound::Reply { id: 1, ok: true }, 1);
    r.on_inbound(&Inbound::Reply { id: 2, ok: true }, 1);
    let frame = r.dispatch(3, Method::Unset, plain(vec![s("a")])).unwrap();
    assert_eq!(frame.method, Method::Unset);
    assert_eq!(r.vars.get("a"), None);
    assert_eq!(r.vars.get("b"), Some(&Value::Bool(true)));
}

#[test]
fn subscribe_is_wired_locally() {
    let mut r = active();
    let params = Params { query: None, other: vec![Value::Uuid(77)], notify: Some(700) };
    assert_eq!(r.dispatch(1, Method::Live, params), None);
    assert_eq!(r.live.get(&77), Some(&700));
    assert!(r.pending.is_empty());
    let action = r.on_inbound(&Inbound::Notification { subscription: 77 }, 1);
    assert_eq!(action, InboundAction::Notify { subscriber: 700, subscription: 77 });
}

#[test]
fn subscribe_without_channel_registers_nothing() {
    let mut r = active();
    assert_eq!(r.dispatch(1, Method::Live, plain(vec![Value::Uuid(77)])), None);
    assert!(r.live.is_empty());
}

#[test]
fn unsubscribe_drops_locally_and_is_sent() {
    let mut r = active();
    r.dispatch(1, Method::Live, Params { query: None, other: vec![Value::Uuid(8)], notify: Some(80) });
    let frame = r.dispatch(2, Method::Kill, plain(vec![Value::Uuid(8)])).unwrap();
    assert_eq!(frame, Frame { id: Some(2), method: Method::Kill, params: vec![Value::Uuid(8)] });
    assert!(r.live.is_empty());
    assert_eq!(r.on_inbound(&Inbound::Notification { subscription: 8 }, 3), InboundAction::Discard);
}

#[test]
fn abandoned_subscription_is_torn_down_once() {
    let mut r = active();
    r.dispatch(1, Method::Live, Params { query: None, other: vec![Value::Uuid(8)], notify: Some(80) });
    let kill = r.on_delivery_failed(8);
    assert_eq!(kill, Frame { id: None, method: Method::Kill, params: vec![Value::Uuid(8)] });
    assert!(r.live.is_empty());
    assert_eq!(r.on_inbound(&Inbound::Notification { subscription: 8 }, 3), InboundAction::Discard);
}

#[test]
fn other_pushes_are_discarded() {
    let mut r = active();
    assert_eq!(r.on_inbound(&Inbound::OtherPush, 1), InboundAction::Discard);
    assert_eq!(r.on_inbound(&Inbound::ErrorPush, 2), InboundAction::Discard);
    assert_eq!(r.on_inbound(&Inbound::Unroutable, 3), InboundAction::Discard);
    assert_eq!(r.on_inbound(&Inbound::Notification { subscription: 1 }, 4), InboundAction::Discard);
}

#[test]
fn keepalive_only_after_a_silent_interval() {
    let mut r = active();
    assert!(!r.on_tick(KEEPALIVE_INTERVAL_MS - 1));
    assert!(r.on_tick(KEEPALIVE_INTERVAL_MS));
    assert!(r.on_tick(2 * KEEPALIVE_INTERVAL_MS));
    r.on_inbound(&Inbound::OtherPush, 2 * KEEPALIVE_INTERVAL_MS - 10);
    assert!(!r.on_tick(2 * KEEPALIVE_INTERVAL_MS));
    call(&mut r, 1, Method::Query, plain(vec![]), 1, 3 * KEEPALIVE_INTERVAL_MS);
    assert!(!r.on_tick(4 * KEEPALIVE_INTERVAL_MS - 1));
    assert!(r.on_tick(4 * KEEPALIVE_INTERVAL_MS));
}

#[test]
fn keepalive_frame_is_an_idless_ping() {
    let frame = Router::keepalive_frame();
    assert_eq!(frame, Frame { id: None, method: Method::Health, params: vec![] });
    assert_eq!(frame.method.wire_name(), "ping");
}

#[test]
fn session_is_replayed_after_reconnect() {
    let mut r = active();
    call(&mut r, 1, Method::Authenticate, plain(vec![s("old-token")]), 1, 0);
    call(&mut r, 2, Method::Authenticate, plain(vec![s("new-token")]), 2, 0);
    call(&mut r, 3, Method::Let, plain(vec![s("a"), Value::Int(1)]), 3, 0);
    call(&mut r, 4, Method::Let, plain(vec![s("b"), Value::Int(2)]), 4, 0);
    for id in 1..=4i64 {
        r.on_inbound(&Inbound::Reply { id, ok: true }, 1);
    }
    call(&mut r, 5, Method::Query, plain(vec![]), 5, 2);
    assert!(r.on_transport(TransportEvent::Closed));
    assert_eq!(r.state, ConnState::Reconnecting);
    let frames = r.session_frames();
    assert_eq!(
        frames,
        vec![
            Frame { id: Some(2), method: Method::Authenticate, params: vec![s("new-token")] },
            Frame { id: None, method: Method::Let, params: vec![s("a"), Value::Int(1)] },
            Frame { id: None, method: Method::Let, params: vec![s("b"), Value::Int(2)] },
        ]
    );
    r.on_connected(10);
    assert_eq!(r.state, ConnState::Active);
    assert!(r.pending.is_empty());
    assert_eq!(r.on_inbound(&Inbound::Reply { id: 5, ok: true }, 11), InboundAction::Discard);
    assert_eq!(r.vars.len(), 2);
}

#[test]
fn reconnect_forgets_subscriptions() {
    let mut r = active();
    r.dispatch(1, Method::Live, Params { query: None, other: vec![Value::Uuid(8)], notify: Some(80) });
    assert!(r.on_transport(TransportEvent::Error));
    r.on_connected(5);
    assert!(r.live.is_empty());
}

#[test]
fn other_transport_events_are_ignored() {
    let mut r = active();
    assert!(!r.on_transport(TransportEvent::Other));
    assert_eq!(r.state, ConnState::Active);
}

#[test]
fn close_is_terminal() {
    let mut r = active();
    r.close();
    assert_eq!(r.state, ConnState::Closed);
    assert!(!r.on_transport(TransportEvent::Error));
    assert!(!r.on_transport(TransportEvent::Closed));
    assert_eq!(r.state, ConnState::Closed);
}

#[test]
fn frames_are_classified() {
    assert_eq!(classify(Decoded::Text), Inbound::Unroutable);
    assert_eq!(
        classify(Decoded::Response { id: Some(Some(4)), result: ResultKind::Success }),
        Inbound::Reply { id: 4, ok: true }
    );
    assert_eq!(
        classify(Decoded::Response { id: Some(Some(4)), result: ResultKind::Failure }),
        Inbound::Reply { id: 4, ok: false }
    );
    assert_eq!(classify(Decoded::Response { id: Some(None), result: ResultKind::Success }), Inbound::Unroutable);
    assert_eq!(
        classify(Decoded::Response { id: None, result: ResultKind::Notification(9) }),
        Inbound::Notification { subscription: 9 }
    );
    assert_eq!(classify(Decoded::Response { id: None, result: ResultKind::Success }), Inbound::OtherPush);
    assert_eq!(classify(Decoded::Response { id: None, result: ResultKind::Failure }), Inbound::ErrorPush);
    assert_eq!(classify(Decoded::Malformed { id: Some(Some(6)) }), Inbound::Undecodable { recovered: Some(6) });
    assert_eq!(classify(Decoded::Malformed { id: Some(None) }), Inbound::Undecodable { recovered: None });
    assert_eq!(classify(Decoded::Malformed { id: None }), Inbound::Undecodable { recovered: None });
}

#[test]
fn wire_names_and_session_verbs() {
    assert_eq!(Method::Health.wire_name(), "ping");
    assert_eq!(Method::Let.wire_name(), "let");
    assert_eq!(Method::Kill.wire_name(), "kill");
    assert!(Method::Authenticate.is_session());
    assert!(Method::Use.is_session());
    assert!(!Method::Query.is_session());
}

#[test]
fn client_keeps_the_id_of_its_last_call() {
    let mut c = Client::new(Method::Select);
    assert_eq!(c.id, 0);
    let route = c.route(12, plain(vec![s("t")]), 3);
    assert_eq!(c.id, 12);
    assert_eq!(route.id, 12);
    assert_eq!(route.method, Method::Select);
    assert_eq!(route.reply, 3);
    assert_eq!(route.params, plain(vec![s("t")]));
}

#[test]
fn closed_core_is_not_reopened() {
    let mut r = active();
    r.close();
    r.on_connected(20);
    assert_eq!(r.state, ConnState::Closed);
}

#[test]
fn unset_moves_the_last_variable_into_the_freed_place() {
    let mut r = active();
    for (id, name) in [(1i64, "a"), (2, "b"), (3, "c")] {
        call(&mut r, id, Method::Let, plain(vec![s(name), Value::Int(id)]), id as u64, 0);
        r.on_inbound(&Inbound::Reply { id, ok: true }, 1);
    }
    r.dispatch(4, Method::Unset, plain(vec![s("a")])).unwrap();
    let names: Vec<Value> = r.session_frames().into_iter().map(|f| f.params.into_iter().next().unwrap()).collect();
    assert_eq!(names, vec![s("c"), s("b")]);
}

#[test]
fn set_variable_without_a_value_stashes_nothing() {
    let mut r = active();
    let frame = call(&mut r, 1, Method::Let, plain(vec![s("a")]), 1, 0);
    assert_eq!(frame.params, vec![s("a")]);
    assert!(r.var_stash.is_empty());
    r.on_inbound(&Inbound::Reply { id: 1, ok: true }, 1);
    assert!(r.vars.is_empty());
}
