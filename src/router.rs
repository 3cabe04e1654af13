use vstd::prelude::*;
use std::collections::HashMap;
use indexmap::IndexMap;
use crate::types::{Frame, FrameView, Method, Value, is_session_method};
use crate::tables::{
    has_key, inserted, keys_unique, replay_entries, replay_entry_at, replay_insert, replay_len,
    replay_new, stash_entries, stash_insert, stash_new, stash_swap_remove, swap_removed, value_of,
    var_entries, vars_entry_at, vars_insert, vars_len, vars_new, vars_swap_remove,
};

verus! {

broadcast use vstd::std_specs::hash::group_hash_axioms;

/// How long the link may stay silent before a keepalive frame goes out, in
/// milliseconds.
pub const KEEPALIVE_INTERVAL_MS: u64 = 5000;

/// The pause between two reconnection attempts, in milliseconds.
pub const RETRY_DELAY_MS: u64 = 1000;

/// The life cycle of one logical connection.
#[derive(Clone, Copy, Debug, PartialEq, Eq, Structural)]
pub enum ConnState {
    Connecting,
    Active,
    Reconnecting,
    Closed,
}

/// The parameters of a call as the caller built them: either a query with
/// its bindings, or a plain list; a subscribe call may carry the token of a
/// notification channel.
#[derive(Debug, PartialEq)]
pub struct Params {
    pub query: Option<(Value, Value)>,
    pub other: Vec<Value>,
    pub notify: Option<u64>,
}

/// What the transport and the codec made of one inbound frame.
#[derive(Clone, Copy, Debug, PartialEq, Eq, Structural)]
pub enum Inbound {
    /// A response that carries an integer id; `ok` tells a success from an
    /// error result.
    Reply { id: i64, ok: bool },
    /// An id-less live notification for a subscription.
    Notification { subscription: u128 },
    /// An id-less payload that is no notification, such as a keepalive reply.
    OtherPush,
    /// An id-less error: nobody can be told.
    ErrorPush,
    /// A frame that did not decode; `recovered` is the id that a reduced decode recovered.
    Undecodable { recovered: Option<i64> },
    /// A frame with nothing to route: text, or an id that is no integer.
    Unroutable,
}

/// What the caller of the core does with an inbound frame.
#[derive(Clone, Copy, Debug, PartialEq, Eq, Structural)]
pub enum InboundAction {
    /// Hand the decoded result to the reply channel `reply`.
    Deliver { reply: u64 },
    /// Hand the decode error to the reply channel `reply`.
    DeliverError { reply: u64 },
    /// Hand the notification to the subscriber channel `subscriber`.
    Notify { subscriber: u64, subscription: u128 },
    /// Nothing to deliver.
    Discard,
}

/// What becomes of a call once its frame was sent.
#[derive(Clone, Copy, Debug, PartialEq, Eq, Structural)]
pub enum Registration {
    /// The call now waits for its reply.
    Registered,
    /// Its id was already pending: the new caller gets a duplicate-id error.
    Duplicate,
}

/// A lifecycle event of the transport.
#[derive(Clone, Copy, Debug, PartialEq, Eq, Structural)]
pub enum TransportEvent {
    Error,
    Closed,
    Other,
}

/// The mathematical state of the core.
pub struct CoreState {
    pub pending: Map<i64, (Method, u64)>,
    pub live: Map<u128, u64>,
    pub stash: Seq<(i64, (Seq<char>, Value))>,
    pub vars: Seq<(Seq<char>, Value)>,
    pub replay: Seq<(Method, FrameView)>,
    pub state: ConnState,
    pub last_activity: u64,
}

/// The parameter list that goes on the wire: a query and its bindings, or
/// the plain list.
pub open spec fn normalized(query: Option<(Value, Value)>, other: Seq<Value>) -> Seq<Value> {
    match query {
        Some(qb) => seq![qb.0, qb.1],
        None => other,
    }
}

/// The string held by the first parameter, if any.
pub open spec fn first_str(ps: Seq<Value>) -> Option<Seq<char>> {
    if ps.len() >= 1 && ps[0] is Str {
        Some(ps[0]->Str_0@)
    } else {
        None
    }
}

/// The uuid held by the first parameter, if any.
pub open spec fn first_uuid(ps: Seq<Value>) -> Option<u128> {
    if ps.len() >= 1 && ps[0] is Uuid {
        Some(ps[0]->Uuid_0)
    } else {
        None
    }
}

/// The frame of a call.
pub open spec fn call_frame(id: i64, m: Method, ps: Seq<Value>) -> FrameView {
    FrameView { id: Some(id), method: m, params: ps }
}

/// The frame that asks the server to drop a subscription.
pub open spec fn kill_frame(sub: u128) -> FrameView {
    FrameView { id: None, method: Method::Kill, params: seq![Value::Uuid(sub)] }
}

/// The id-less keepalive frame.
pub open spec fn ping_frame() -> FrameView {
    FrameView { id: None, method: Method::Health, params: Seq::empty() }
}

/// `f` re-issues the committed variable `e`.
pub open spec fn is_var_frame(f: FrameView, e: (Seq<char>, Value)) -> bool {
    &&& f.id.is_none()
    &&& f.method == Method::Let
    &&& f.params.len() == 2
    &&& f.params[0] is Str
    &&& f.params[0]->Str_0@ == e.0
    &&& f.params[1] == e.1
}

/// The local bookkeeping of a call, before anything is sent.
pub open spec fn after_dispatch(
    s: CoreState,
    id: i64,
    m: Method,
    ps: Seq<Value>,
    notify: Option<u64>,
) -> CoreState {
    match m {
        Method::Let => if ps.len() >= 2 && first_str(ps).is_some() {
            CoreState { stash: inserted(s.stash, id, (first_str(ps).unwrap(), ps[1])), ..s }
        } else {
            s
        },
        Method::Unset => if first_str(ps).is_some() {
            CoreState { vars: swap_removed(s.vars, first_str(ps).unwrap()), ..s }
        } else {
            s
        },
        Method::Live => if notify.is_some() && first_uuid(ps).is_some() {
            CoreState { live: s.live.insert(first_uuid(ps).unwrap(), notify.unwrap()), ..s }
        } else {
            s
        },
        Method::Kill => if first_uuid(ps).is_some() {
            CoreState { live: s.live.remove(first_uuid(ps).unwrap()), ..s }
        } else {
            s
        },
        _ => if is_session_method(m) {
            CoreState { replay: inserted(s.replay, m, call_frame(id, m, ps)), ..s }
        } else {
            s
        },
    }
}

/// The state once a call's frame went out at time `now`.
pub open spec fn after_register(s: CoreState, id: i64, m: Method, reply: u64, now: u64) -> CoreState {
    if s.pending.contains_key(id) {
        CoreState { last_activity: now, ..s }
    } else {
        CoreState { pending: s.pending.insert(id, (m, reply)), last_activity: now, ..s }
    }
}

/// What the decoded result of a response holds.
#[derive(Clone, Copy, Debug, PartialEq, Eq, Structural)]
pub enum ResultKind {
    /// A live notification for the given subscription.
    Notification(u128),
    /// Any other success value.
    Success,
    /// An error value.
    Failure,
}

/// An inbound frame as the codec left it. An `id` field is `None` when
/// absent, `Some(None)` when present but not an integer.
#[derive(Clone, Copy, Debug, PartialEq, Eq, Structural)]
pub enum Decoded {
    /// A text frame, which the protocol does not use.
    Text,
    /// A binary frame that decoded as a response.
    Response { id: Option<Option<i64>>, result: ResultKind },
    /// A binary frame that did not decode; `id` is what a reduced decode of
    /// the id field alone found, if it succeeded.
    Malformed { id: Option<Option<i64>> },
}

/// How a decoded frame is routed.
pub open spec fn classified(d: Decoded) -> Inbound {
    match d {
        Decoded::Text => Inbound::Unroutable,
        Decoded::Response { id, result } => match id {
            Some(Some(i)) => Inbound::Reply { id: i, ok: result != ResultKind::Failure },
            Some(None) => Inbound::Unroutable,
            None => match result {
                ResultKind::Notification(sub) => Inbound::Notification { subscription: sub },
                ResultKind::Success => Inbound::OtherPush,
                ResultKind::Failure => Inbound::ErrorPush,
            },
        },
        Decoded::Malformed { id } => match id {
            Some(Some(i)) => Inbound::Undecodable { recovered: Some(i) },
            _ => Inbound::Undecodable { recovered: None },
        },
    }
}

/// Routes a decoded frame: a response with an integer id is a reply, an
/// id-less one a push, and a malformed one keeps whatever id was recovered.
pub fn classify(d: Decoded) -> (r: Inbound)
    ensures
        r == classified(d),
{
    match d {
        Decoded::Text => Inbound::Unroutable,
        Decoded::Response { id, result } => match id {
            Some(Some(i)) => Inbound::Reply { id: i, ok: result != ResultKind::Failure },
            Some(None) => Inbound::Unroutable,
            None => match result {
                ResultKind::Notification(sub) => Inbound::Notification { subscription: sub },
                ResultKind::Success => Inbound::OtherPush,
                ResultKind::Failure => Inbound::ErrorPush,
            },
        },
        Decoded::Malformed { id } => match id {
            Some(Some(i)) => Inbound::Undecodable { recovered: Some(i) },
            _ => Inbound::Undecodable { recovered: None },
        },
    }
}

/// What an inbound frame asks for.
pub open spec fn inbound_action(s: CoreState, msg: Inbound) -> InboundAction {
    match msg {
        Inbound::Reply { id, ok } => if s.pending.contains_key(id) {
            InboundAction::Deliver { reply: s.pending[id].1 }
        } else {
            InboundAction::Discard
        },
        Inbound::Undecodable { recovered } => if recovered.is_some() && s.pending.contains_key(recovered.unwrap()) {
            InboundAction::DeliverError { reply: s.pending[recovered.unwrap()].1 }
        } else {
            InboundAction::Discard
        },
        Inbound::Notification { subscription } => if s.live.contains_key(subscription) {
            InboundAction::Notify { subscriber: s.live[subscription], subscription }
        } else {
            InboundAction::Discard
        },
        _ => InboundAction::Discard,
    }
}

/// The tables once the reply to pending call `id` arrived: a pending
/// set-variable call moves its variable out of the stash, and commits it when
/// the reply is a success.
pub open spec fn after_answer(s: CoreState, id: i64, ok: bool) -> CoreState {
    let m = s.pending[id].0;
    let pending = s.pending.remove(id);
    if m == Method::Let && has_key(s.stash, id) {
        let e = value_of(s.stash, id).unwrap();
        CoreState {
            pending,
            stash: swap_removed(s.stash, id),
            vars: if ok { inserted(s.vars, e.0, e.1) } else { s.vars },
            ..s
        }
    } else {
        CoreState { pending, ..s }
    }
}

/// The state once an inbound frame was handled at time `now`.
pub open spec fn after_inbound(s: CoreState, msg: Inbound, now: u64) -> CoreState {
    let t = CoreState { last_activity: now, ..s };
    match msg {
        Inbound::Reply { id, ok } => if s.pending.contains_key(id) {
            after_answer(t, id, ok)
        } else {
            t
        },
        Inbound::Undecodable { recovered } => if recovered.is_some() && s.pending.contains_key(recovered.unwrap()) {
            CoreState { pending: s.pending.remove(recovered.unwrap()), ..t }
        } else {
            t
        },
        _ => t,
    }
}

/// A keepalive frame is owed at `now`: the link has been silent for the whole
/// interval.
pub open spec fn keepalive_due(s: CoreState, now: u64) -> bool {
    now - s.last_activity >= KEEPALIVE_INTERVAL_MS
}

/// The state after a transport lifecycle event.
pub open spec fn after_transport(s: CoreState, ev: TransportEvent) -> CoreState {
    if s.state == ConnState::Active && (ev == TransportEvent::Error || ev == TransportEvent::Closed) {
        CoreState { state: ConnState::Reconnecting, ..s }
    } else {
        s
    }
}

/// The frames that restore the session after a reconnect: every replay-log
/// frame in order, then one set-variable frame per committed variable.
pub open spec fn restores_session(r: Seq<FrameView>, s: CoreState) -> bool {
    &&& r.len() == s.replay.len() + s.vars.len()
    &&& forall|i: int| 0 <= i < s.replay.len() ==> r[i] == #[trigger] s.replay[i].1
    &&& forall|j: int| 0 <= j < s.vars.len() ==> is_var_frame(r[s.replay.len() + j], #[trigger] s.vars[j])
}

/// The state once delivery to the subscriber of `sub` failed: the
/// subscription is dropped.
pub open spec fn after_delivery_failed(s: CoreState, sub: u128) -> CoreState {
    CoreState { live: s.live.remove(sub), ..s }
}

/// The state once the close sentinel was handled.
pub open spec fn after_close(s: CoreState) -> CoreState {
    CoreState { state: ConnState::Closed, ..s }
}

/// The state at the start of a new epoch: pending calls and subscriptions
/// are forgotten, the session tables are kept. A closed core stays closed.
pub open spec fn after_connected(s: CoreState, now: u64) -> CoreState {
    CoreState {
        pending: Map::empty(),
        live: Map::empty(),
        state: if s.state == ConnState::Closed { ConnState::Closed } else { ConnState::Active },
        last_activity: now,
        ..s
    }
}

/// The multiplexing state of one connection, owned by its control loop.
pub struct Router {
    /// Calls sent and not yet answered: id to verb and reply channel token.
    pub pending: HashMap<i64, (Method, u64)>,
    /// Live subscriptions: subscription id to notification channel token.
    pub live: HashMap<u128, u64>,
    /// Set-variable calls awaiting acknowledgment: id to name and value.
    pub var_stash: IndexMap<i64, (String, Value)>,
    /// Acknowledged session variables.
    pub vars: IndexMap<String, Value>,
    /// The last frame of each session-establishing verb.
    pub replay: IndexMap<Method, Frame>,
    pub state: ConnState,
    /// When traffic last went over the link, in milliseconds.
    pub last_activity: u64,
}

impl Router {
    pub open spec fn model(&self) -> CoreState {
        CoreState {
            pending: self.pending@,
            live: self.live@,
            stash: stash_entries(self.var_stash),
            vars: var_entries(self.vars),
            replay: replay_entries(self.replay),
            state: self.state,
            last_activity: self.last_activity,
        }
    }

    /// The ordered tables hold each key once.
    pub open spec fn wf(&self) -> bool {
        &&& keys_unique(self.model().stash)
        &&& keys_unique(self.model().vars)
        &&& keys_unique(self.model().replay)
    }

    /// A core that is still connecting, with empty tables.
    pub fn new(now: u64) -> (r: Router)
        ensures
            r.wf(),
            r.model().pending.is_empty(),
            r.model().live.is_empty(),
            r.model().stash.len() == 0,
            r.model().vars.len() == 0,
            r.model().replay.len() == 0,
            r.model().state == ConnState::Connecting,
            r.model().last_activity == now,
    {
        Router {
            pending: HashMap::new(),
            live: HashMap::new(),
            var_stash: stash_new(),
            vars: vars_new(),
            replay: replay_new(),
            state: ConnState::Connecting,
            last_activity: now,
        }
    }

    /// Local bookkeeping of a call taken from the request queue. A subscribe
    /// call is wired locally and answered at once: it returns `None` and
    /// nothing is sent. Any other call returns the frame to transmit; a
    /// session-establishing one is recorded in the replay log first.
    pub fn dispatch(&mut self, id: i64, method: Method, params: Params) -> (r: Option<Frame>)
        requires
            old(self).wf(),
        ensures
            final(self).wf(),
            final(self).model() == after_dispatch(
                old(self).model(),
                id,
                method,
                normalized(params.query, params.other@),
                params.notify,
            ),
            method == Method::Live <==> r.is_none(),
            r.is_some() ==> r.unwrap()@ == call_frame(
                id,
                method,
                normalized(params.query, params.other@),
            ),
    {
        let notify = params.notify;
        let ps: Vec<Value> = match params.query {
            Some(qb) => vec![qb.0, qb.1],
            None => params.other,
        };
        match method {
            Method::Let => {
                if ps.len() >= 2 {
                    if let Value::Str(key) = &ps[0] {
                        stash_insert(&mut self.var_stash, id, (key.clone(), ps[1].duplicate()));
                    }
                }
            },
            Method::Unset => {
                if ps.len() >= 1 {
                    if let Value::Str(key) = &ps[0] {
                        let _ = vars_swap_remove(&mut self.vars, key);
                    }
                }
            },
            Method::Live => {
                if let Some(token) = notify {
                    if ps.len() >= 1 {
                        if let Value::Uuid(sub) = &ps[0] {
                            self.live.insert(*sub, token);
                        }
                    }
                }
                return None;
            },
            Method::Kill => {
                if ps.len() >= 1 {
                    if let Value::Uuid(sub) = &ps[0] {
                        let _ = self.live.remove(sub);
                    }
                }
            },
            _ => {},
        }
        let frame = Frame { id: Some(id), method, params: ps };
        if method.is_session() {
            replay_insert(&mut self.replay, method, frame.duplicate());
        }
        Some(frame)
    }

    /// Records that the frame of call `id` went out at `now`. The call then
    /// waits for its reply, unless its id is already pending: the earlier
    /// call is left alone and this one is refused.
    pub fn register(&mut self, id: i64, method: Method, reply: u64, now: u64) -> (r: Registration)
        requires
            old(self).wf(),
        ensures
            final(self).wf(),
            final(self).model() == after_register(old(self).model(), id, method, reply, now),
            r == Registration::Duplicate <==> old(self).model().pending.contains_key(id),
    {
        self.last_activity = now;
        if self.pending.contains_key(&id) {
            Registration::Duplicate
        } else {
            self.pending.insert(id, (method, reply));
            Registration::Registered
        }
    }

    /// Routes an inbound frame that arrived at `now`: a reply goes to the
    /// call with its id, which stops waiting; a notification goes to its
    /// subscriber; anything else is dropped.
    pub fn on_inbound(&mut self, msg: &Inbound, now: u64) -> (r: InboundAction)
        requires
            old(self).wf(),
        ensures
            final(self).wf(),
            r == inbound_action(old(self).model(), *msg),
            final(self).model() == after_inbound(old(self).model(), *msg, now),
    {
        let ghost p0 = self.pending@;
        self.last_activity = now;
        match msg {
            Inbound::Reply { id, ok } => {
                match self.pending.remove(id) {
                    Some(entry) => {
                        if entry.0 == Method::Let {
                            match stash_swap_remove(&mut self.var_stash, id) {
                                Some(kv) => {
                                    if *ok {
                                        vars_insert(&mut self.vars, kv.0, kv.1);
                                    }
                                },
                                None => {},
                            }
                        }
                        InboundAction::Deliver { reply: entry.1 }
                    },
                    None => {
                        assert(self.pending@ =~= p0);
                        InboundAction::Discard
                    },
                }
            },
            Inbound::Undecodable { recovered } => {
                match recovered {
                    Some(id) => match self.pending.remove(id) {
                        Some(entry) => InboundAction::DeliverError { reply: entry.1 },
                        None => {
                            assert(self.pending@ =~= p0);
                            InboundAction::Discard
                        },
                    },
                    None => InboundAction::Discard,
                }
            },
            Inbound::Notification { subscription } => {
                match self.live.get(subscription) {
                    Some(token) => InboundAction::Notify { subscriber: *token, subscription: *subscription },
                    None => InboundAction::Discard,
                }
            },
            _ => InboundAction::Discard,
        }
    }

    /// Drops a subscription whose subscriber is gone, and returns the frame
    /// that tells the server to stop pushing it.
    pub fn on_delivery_failed(&mut self, subscription: u128) -> (r: Frame)
        requires
            old(self).wf(),
        ensures
            final(self).wf(),
            final(self).model() == after_delivery_failed(old(self).model(), subscription),
            r@ == kill_frame(subscription),
    {
        let _ = self.live.remove(&subscription);
        let params: Vec<Value> = vec![Value::Uuid(subscription)];
        assert(params@ =~= seq![Value::Uuid(subscription)]);
        Frame { id: None, method: Method::Kill, params }
    }

    /// Whether a keepalive frame is owed at the tick `now`.
    pub fn on_tick(&self, now: u64) -> (r: bool)
        ensures
            r == keepalive_due(self.model(), now),
    {
        now >= self.last_activity && now - self.last_activity >= KEEPALIVE_INTERVAL_MS
    }

    /// The keepalive frame.
    pub fn keepalive_frame() -> (r: Frame)
        ensures
            r@ == ping_frame(),
    {
        let params: Vec<Value> = Vec::new();
        Frame { id: None, method: Method::Health, params }
    }

    /// Handles a transport lifecycle event; returns whether the connection
    /// must be re-established. An error or a close while active starts a
    /// reconnection; after the close sentinel nothing does.
    pub fn on_transport(&mut self, ev: TransportEvent) -> (r: bool)
        requires
            old(self).wf(),
        ensures
            final(self).wf(),
            final(self).model() == after_transport(old(self).model(), ev),
            r == (final(self).model().state == ConnState::Reconnecting && old(self).model().state
                == ConnState::Active),
    {
        if self.state == ConnState::Active && (ev == TransportEvent::Error || ev
            == TransportEvent::Closed) {
            self.state = ConnState::Reconnecting;
            true
        } else {
            false
        }
    }

    /// Handles the close sentinel: the connection ends for good.
    pub fn close(&mut self)
        requires
            old(self).wf(),
        ensures
            final(self).wf(),
            final(self).model() == after_close(old(self).model()),
    {
        self.state = ConnState::Closed;
    }

    /// Starts a new epoch on a fresh connection at `now`, unless the core was
    /// closed.
    pub fn on_connected(&mut self, now: u64)
        requires
            old(self).wf(),
        ensures
            final(self).wf(),
            final(self).model() == after_connected(old(self).model(), now),
    {
        self.pending = HashMap::new();
        self.live = HashMap::new();
        if self.state != ConnState::Closed {
            self.state = ConnState::Active;
        }
        self.last_activity = now;
    }

    /// The frames that restore the session on a new connection, in the
    /// order they are sent.
    pub fn session_frames(&self) -> (r: Vec<Frame>)
        ensures
            restores_session(r@.map_values(|f: Frame| f@), self.model()),
    {
        let mut r: Vec<Frame> = Vec::new();
        let n = replay_len(&self.replay);
        let mut i: usize = 0;
        while i < n
            invariant
                n == self.model().replay.len(),
                i <= n,
                r@.len() == i,
                forall|k: int| 0 <= k < i ==> r@[k]@ == #[trigger] self.model().replay[k].1,
            decreases n - i,
        {
            match replay_entry_at(&self.replay, i) {
                Some(entry) => r.push(entry.1.duplicate()),
                None => {},
            }
            i = i + 1;
        }
        let m = vars_len(&self.vars);
        let mut j: usize = 0;
        while j < m
            invariant
                n == self.model().replay.len(),
                m == self.model().vars.len(),
                j <= m,
                r@.len() == n + j,
                forall|k: int| 0 <= k < n ==> r@[k]@ == #[trigger] self.model().replay[k].1,
                forall|k: int|
                    0 <= k < j ==> is_var_frame(r@[n + k]@, #[trigger] self.model().vars[k]),
            decreases m - j,
        {
            match vars_entry_at(&self.vars, j) {
                Some(entry) => {
                    let params: Vec<Value> = vec![Value::Str(entry.0.clone()), entry.1.duplicate()];
                    r.push(Frame { id: None, method: Method::Let, params });
                },
                None => {},
            }
            j = j + 1;
        }
        r
    }
}

} // verus!
