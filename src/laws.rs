use vstd::prelude::*;
use crate::router::{
    after_close, after_connected, after_delivery_failed, after_dispatch, after_inbound, after_register,
    after_transport, inbound_action, keepalive_due, ConnState, CoreState, Inbound, InboundAction,
    TransportEvent, KEEPALIVE_INTERVAL_MS,
};
use crate::tables::{has_key, inserted, key_index, keys_unique, value_of};
use crate::types::{Method, Value};

verus! {

/// Inserting into entries with unique keys keeps them unique, and the key
/// then maps to the new value.
pub proof fn lemma_inserted_value<K, V>(s: Seq<(K, V)>, k: K, v: V)
    requires
        keys_unique(s),
    ensures
        keys_unique(inserted(s, k, v)),
        has_key(inserted(s, k, v), k),
        value_of(inserted(s, k, v), k) == Some(v),
{
    let t = inserted(s, k, v);
    if has_key(s, k) {
        let i = key_index(s, k);
        assert(t[i].0 == k);
    } else {
        assert(t[s.len() as int].0 == k);
    }
    let j = key_index(t, k);
    assert(t[j].0 == k);
    if has_key(s, k) {
        let i = key_index(s, k);
        assert forall|a: int, b: int|
            0 <= a < t.len() && 0 <= b < t.len() && #[trigger] t[a].0 == #[trigger] t[b].0 implies a
            == b by {
            if a != i && b != i {
                assert(s[a].0 == s[b].0);
            } else if a == i && b != i {
                assert(s[b].0 == s[i].0);
            } else if b == i && a != i {
                assert(s[a].0 == s[i].0);
            }
        }
        assert(j == i);
    } else {
        assert forall|a: int, b: int|
            0 <= a < t.len() && 0 <= b < t.len() && #[trigger] t[a].0 == #[trigger] t[b].0 implies a
            == b by {
            if a < s.len() && b < s.len() {
                assert(s[a].0 == s[b].0);
            } else if a < s.len() {
                assert(s[a].0 == k);
            } else if b < s.len() {
                assert(s[b].0 == k);
            }
        }
    }
}

/// A call id is never given to two pending calls: registering a call keeps
/// every pending call as it was, and adds the new one only when its id is
/// free; a reused id leaves the table unchanged.
pub proof fn lemma_pending_ids_unique(s: CoreState, id: i64, m: Method, reply: u64, now: u64)
    ensures
        forall|k: i64|
            s.pending.contains_key(k) ==> after_register(s, id, m, reply, now).pending.contains_key(k)
                && #[trigger] after_register(s, id, m, reply, now).pending[k] == s.pending[k],
        s.pending.contains_key(id) ==> after_register(s, id, m, reply, now).pending == s.pending,
        !s.pending.contains_key(id) ==> after_register(s, id, m, reply, now).pending == s.pending.insert(
            id,
            (m, reply),
        ),
{
}

/// A frame that would answer pending call `id`.
pub open spec fn answers(msg: Inbound, id: i64) -> bool {
    msg == (Inbound::Reply { id, ok: true }) || msg == (Inbound::Reply { id, ok: false }) || msg
        == (Inbound::Undecodable { recovered: Some(id) })
}

/// A reply channel receives at most one value: once a frame has answered
/// call `id`, any later frame for the same id is discarded.
pub proof fn lemma_reply_at_most_once(s: CoreState, first: Inbound, second: Inbound, id: i64, now: u64)
    requires
        answers(first, id),
        answers(second, id),
    ensures
        inbound_action(after_inbound(s, first, now), second) == InboundAction::Discard,
{
}

/// A reply reaches the call that issued its id, and leaves every other
/// pending call waiting with its own reply channel, so replies in any order
/// each reach their own caller.
pub proof fn lemma_reply_correlation(s: CoreState, id: i64, ok: bool, now: u64)
    requires
        s.pending.contains_key(id),
    ensures
        inbound_action(s, Inbound::Reply { id, ok }) == (InboundAction::Deliver {
            reply: s.pending[id].1,
        }),
        forall|k: i64|
            k != id && s.pending.contains_key(k) ==> after_inbound(s, Inbound::Reply { id, ok }, now).pending.contains_key(k)
                && #[trigger] after_inbound(s, Inbound::Reply { id, ok }, now).pending[k]
                == s.pending[k],
        !after_inbound(s, Inbound::Reply { id, ok }, now).pending.contains_key(id),
{
}

/// The actions taken for successful replies to `ids`, arriving in that order.
pub open spec fn reply_actions(s: CoreState, ids: Seq<i64>, now: u64) -> Seq<InboundAction>
    decreases ids.len(),
{
    if ids.len() == 0 {
        Seq::empty()
    } else {
        let msg = Inbound::Reply { id: ids[0], ok: true };
        seq![inbound_action(s, msg)] + reply_actions(after_inbound(s, msg, now), ids.drop_first(), now)
    }
}

/// Replies to distinct pending calls, arriving in any order, each reach the
/// reply channel of the call that issued their id.
pub proof fn lemma_replies_in_any_order(s: CoreState, ids: Seq<i64>, now: u64)
    requires
        ids.no_duplicates(),
        forall|i: int| 0 <= i < ids.len() ==> s.pending.contains_key(#[trigger] ids[i]),
    ensures
        reply_actions(s, ids, now).len() == ids.len(),
        forall|i: int|
            0 <= i < ids.len() ==> #[trigger] reply_actions(s, ids, now)[i] == (InboundAction::Deliver {
                reply: s.pending[ids[i]].1,
            }),
    decreases ids.len(),
{
    if ids.len() > 0 {
        let msg = Inbound::Reply { id: ids[0], ok: true };
        let s1 = after_inbound(s, msg, now);
        let rest = ids.drop_first();
        lemma_reply_correlation(s, ids[0], true, now);
        assert forall|i: int| 0 <= i < rest.len() implies s1.pending.contains_key(#[trigger] rest[i]) by {
            assert(rest[i] == ids[i + 1]);
            assert(ids[i + 1] != ids[0]);
        }
        assert(rest.no_duplicates()) by {
            assert forall|a: int, b: int| 0 <= a < rest.len() && 0 <= b < rest.len() && a != b implies rest[a]
                != rest[b] by {
                assert(rest[a] == ids[a + 1] && rest[b] == ids[b + 1]);
            }
        }
        lemma_replies_in_any_order(s1, rest, now);
        assert forall|i: int| 0 <= i < ids.len() implies #[trigger] reply_actions(s, ids, now)[i]
            == (InboundAction::Deliver { reply: s.pending[ids[i]].1 }) by {
            if i > 0 {
                assert(rest[i - 1] == ids[i]);
                assert(ids[i] != ids[0]);
                assert(reply_actions(s, ids, now)[i] == reply_actions(s1, rest, now)[i - 1]);
            }
        }
    }
}

/// Sending a set-variable call commits nothing: the committed variables are
/// the same after its bookkeeping and its registration.
pub proof fn lemma_set_pending_not_committed(
    s: CoreState,
    id: i64,
    ps: Seq<Value>,
    notify: Option<u64>,
    reply: u64,
    now: u64,
)
    ensures
        after_register(after_dispatch(s, id, Method::Let, ps, notify), id, Method::Let, reply, now).vars
            == s.vars,
{
}

/// A successful acknowledgment of a pending set-variable call commits its
/// stashed name and value.
pub proof fn lemma_ack_commits(s: CoreState, id: i64, now: u64)
    requires
        keys_unique(s.vars),
        s.pending.contains_key(id),
        s.pending[id].0 == Method::Let,
        has_key(s.stash, id),
    ensures
        has_key(after_inbound(s, Inbound::Reply { id, ok: true }, now).vars, value_of(s.stash, id).unwrap().0),
        value_of(after_inbound(s, Inbound::Reply { id, ok: true }, now).vars, value_of(s.stash, id).unwrap().0)
            == Some(value_of(s.stash, id).unwrap().1),
{
    let e = value_of(s.stash, id).unwrap();
    lemma_inserted_value(s.vars, e.0, e.1);
}

/// Only a successful acknowledgment of a pending set-variable call changes
/// the committed variables when a frame comes in.
pub proof fn lemma_only_ack_commits(s: CoreState, msg: Inbound, now: u64)
    requires
        after_inbound(s, msg, now).vars != s.vars,
    ensures
        msg is Reply,
        msg->Reply_ok,
        s.pending.contains_key(msg->Reply_id),
        s.pending[msg->Reply_id].0 == Method::Let,
{
}

/// A link silent for the whole interval is owed a keepalive frame at every
/// later tick until traffic happens.
pub proof fn lemma_idle_link_pinged(s: CoreState, now: u64, later: u64)
    requires
        now >= s.last_activity + KEEPALIVE_INTERVAL_MS,
        later >= now,
    ensures
        keepalive_due(s, now),
        keepalive_due(s, later),
{
}

/// Traffic within the interval holds the keepalive frame back: after a
/// frame comes in or a call goes out at `t`, no tick before `t` plus the
/// interval sends one.
pub proof fn lemma_traffic_defers_keepalive(
    s: CoreState,
    msg: Inbound,
    id: i64,
    m: Method,
    reply: u64,
    t: u64,
    now: u64,
)
    requires
        now < t + KEEPALIVE_INTERVAL_MS,
    ensures
        !keepalive_due(after_inbound(s, msg, t), now),
        !keepalive_due(after_register(s, id, m, reply, t), now),
{
}

/// A subscription whose subscriber is gone is dropped, so later
/// notifications for it are discarded and no second unsubscribe follows.
pub proof fn lemma_push_teardown(s: CoreState, sub: u128, now: u64)
    ensures
        !after_delivery_failed(s, sub).live.contains_key(sub),
        inbound_action(after_delivery_failed(s, sub), Inbound::Notification { subscription: sub })
            == InboundAction::Discard,
        after_inbound(after_delivery_failed(s, sub), Inbound::Notification { subscription: sub }, now).live
            == after_delivery_failed(s, sub).live,
{
}

/// After the close sentinel no transport event starts a reconnection, and
/// no new connection reopens the core.
pub proof fn lemma_close_is_terminal(s: CoreState, ev: TransportEvent, now: u64)
    ensures
        after_close(s).state == ConnState::Closed,
        after_transport(after_close(s), ev).state == ConnState::Closed,
        after_connected(after_close(s), now).state == ConnState::Closed,
{
}

} // verus!
