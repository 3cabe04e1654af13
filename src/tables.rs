use vstd::prelude::*;
use indexmap::IndexMap;
use crate::types::{Frame, FrameView, Method, Value};

verus! {

#[verifier::external_type_specification]
#[verifier::external_body]
#[verifier::reject_recursive_types(K)]
#[verifier::reject_recursive_types(V)]
#[verifier::reject_recursive_types(S)]
pub struct ExIndexMap<K, V, S>(IndexMap<K, V, S>);

/// No key occurs twice among the entries.
pub open spec fn keys_unique<K, V>(s: Seq<(K, V)>) -> bool {
    forall|i: int, j: int|
        0 <= i < s.len() && 0 <= j < s.len() && #[trigger] s[i].0 == #[trigger] s[j].0 ==> i == j
}

/// Some entry has key `k`.
pub open spec fn has_key<K, V>(s: Seq<(K, V)>, k: K) -> bool {
    exists|i: int| 0 <= i < s.len() && #[trigger] s[i].0 == k
}

/// The position of key `k`, where it is present.
pub open spec fn key_index<K, V>(s: Seq<(K, V)>, k: K) -> int {
    choose|i: int| 0 <= i < s.len() && #[trigger] s[i].0 == k
}

/// The entries after inserting `(k, v)`: a present key keeps its place and
/// takes the new value, a new key goes last.
pub open spec fn inserted<K, V>(s: Seq<(K, V)>, k: K, v: V) -> Seq<(K, V)> {
    if has_key(s, k) {
        s.update(key_index(s, k), (k, v))
    } else {
        s.push((k, v))
    }
}

/// The entries after removing key `k`: its place is taken by the last entry.
pub open spec fn swap_removed<K, V>(s: Seq<(K, V)>, k: K) -> Seq<(K, V)> {
    if has_key(s, k) {
        s.update(key_index(s, k), s.last()).drop_last()
    } else {
        s
    }
}

/// The value under key `k`, where it is present.
pub open spec fn value_of<K, V>(s: Seq<(K, V)>, k: K) -> Option<V> {
    if has_key(s, k) {
        Some(s[key_index(s, k)].1)
    } else {
        None
    }
}

/// The entries of the committed-variable table, in order.
pub uninterp spec fn var_entries(m: IndexMap<String, Value>) -> Seq<(Seq<char>, Value)>;

/// The entries of the pending-variable table, in order.
pub uninterp spec fn stash_entries(m: IndexMap<i64, (String, Value)>) -> Seq<(i64, (Seq<char>, Value))>;

/// The entries of the replay log, in order.
pub uninterp spec fn replay_entries(m: IndexMap<Method, Frame>) -> Seq<(Method, FrameView)>;

/// Relies on IndexMap::new: the map starts empty.
#[verifier::external_body]
pub(crate) fn vars_new() -> (r: IndexMap<String, Value>)
    ensures
        var_entries(r) == Seq::<(Seq<char>, Value)>::empty(),
{
    IndexMap::new()
}

/// Relies on IndexMap::insert: a present key keeps its place and takes the
/// new value, a new key goes last; keys stay unique.
#[verifier::external_body]
pub(crate) fn vars_insert(m: &mut IndexMap<String, Value>, k: String, v: Value)
    ensures
        var_entries(*final(m)) == inserted(var_entries(*old(m)), k@, v),
        keys_unique(var_entries(*final(m))),
{
    m.insert(k, v);
}

/// Relies on IndexMap::swap_remove: the last entry takes the removed one's
/// place; the removed value is returned.
#[verifier::external_body]
pub(crate) fn vars_swap_remove(m: &mut IndexMap<String, Value>, k: &String) -> (r: Option<Value>)
    ensures
        var_entries(*final(m)) == swap_removed(var_entries(*old(m)), k@),
        r == value_of(var_entries(*old(m)), k@),
        keys_unique(var_entries(*final(m))),
{
    m.swap_remove(k)
}

/// Relies on IndexMap::len: the number of entries.
#[verifier::external_body]
pub(crate) fn vars_len(m: &IndexMap<String, Value>) -> (r: usize)
    ensures
        r == var_entries(*m).len(),
{
    m.len()
}

/// Relies on IndexMap::get_index: the entry at a position in the order.
#[verifier::external_body]
pub(crate) fn vars_entry_at(m: &IndexMap<String, Value>, i: usize) -> (r: Option<(&String, &Value)>)
    ensures
        i < var_entries(*m).len() <==> r.is_some(),
        r.is_some() ==> r.unwrap().0@ == var_entries(*m)[i as int].0 && *r.unwrap().1
            == var_entries(*m)[i as int].1,
{
    m.get_index(i)
}

/// Relies on IndexMap::new: the map starts empty.
#[verifier::external_body]
pub(crate) fn stash_new() -> (r: IndexMap<i64, (String, Value)>)
    ensures
        stash_entries(r) == Seq::<(i64, (Seq<char>, Value))>::empty(),
{
    IndexMap::new()
}

/// Relies on IndexMap::insert: a present key keeps its place and takes the
/// new value, a new key goes last; keys stay unique.
#[verifier::external_body]
pub(crate) fn stash_insert(m: &mut IndexMap<i64, (String, Value)>, k: i64, v: (String, Value))
    ensures
        stash_entries(*final(m)) == inserted(stash_entries(*old(m)), k, (v.0@, v.1)),
        keys_unique(stash_entries(*final(m))),
{
    m.insert(k, v);
}

/// Relies on IndexMap::swap_remove: the last entry takes the removed one's
/// place; the removed value is returned.
#[verifier::external_body]
pub(crate) fn stash_swap_remove(m: &mut IndexMap<i64, (String, Value)>, k: &i64) -> (r: Option<(String, Value)>)
    ensures
        stash_entries(*final(m)) == swap_removed(stash_entries(*old(m)), *k),
        keys_unique(stash_entries(*final(m))),
        match r {
            Some(e) => value_of(stash_entries(*old(m)), *k) == Some((e.0@, e.1)),
            None => value_of(stash_entries(*old(m)), *k).is_none(),
        },
{
    m.swap_remove(k)
}

/// Relies on IndexMap::new: the map starts empty.
#[verifier::external_body]
pub(crate) fn replay_new() -> (r: IndexMap<Method, Frame>)
    ensures
        replay_entries(r) == Seq::<(Method, FrameView)>::empty(),
{
    IndexMap::new()
}

/// Relies on IndexMap::insert: a present key keeps its place and takes the
/// new value, a new key goes last; keys stay unique.
#[verifier::external_body]
pub(crate) fn replay_insert(m: &mut IndexMap<Method, Frame>, k: Method, v: Frame)
    ensures
        replay_entries(*final(m)) == inserted(replay_entries(*old(m)), k, v@),
        keys_unique(replay_entries(*final(m))),
{
    m.insert(k, v);
}

/// Relies on IndexMap::len: the number of entries.
#[verifier::external_body]
pub(crate) fn replay_len(m: &IndexMap<Method, Frame>) -> (r: usize)
    ensures
        r == replay_entries(*m).len(),
{
    m.len()
}

/// Relies on IndexMap::get_index: the entry at a position in the order.
#[verifier::external_body]
pub(crate) fn replay_entry_at(m: &IndexMap<Method, Frame>, i: usize) -> (r: Option<(&Method, &Frame)>)
    ensures
        i < replay_entries(*m).len() <==> r.is_some(),
        r.is_some() ==> *r.unwrap().0 == replay_entries(*m)[i as int].0 && r.unwrap().1@
            == replay_entries(*m)[i as int].1,
{
    m.get_index(i)
}

} // verus!
