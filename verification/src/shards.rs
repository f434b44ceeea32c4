//! The sharded concurrent map of `dashmap` that holds the entries.
//!
//! Every contract here speaks of `held`, the mapping from keys to documents
//! that the collection holds. The functions that change it take `&mut`, so
//! that no other holder can change it between two calls.

use vstd::prelude::*;
use dashmap::DashMap;
use serde_json::Value;

verus! {

/// `dashmap::DashMap`, opaque.
#[verifier::external_type_specification]
#[verifier::external_body]
#[verifier::reject_recursive_types(K)]
#[verifier::reject_recursive_types(V)]
#[verifier::reject_recursive_types(S)]
pub struct ExDashMap<K, V, S>(dashmap::DashMap<K, V, S>);

/// The entries that the collection holds.
pub uninterp spec fn held(shards: DashMap<String, Value>) -> Map<Seq<char>, Value>;

/// The mapping without any key.
pub open spec fn no_entries() -> Map<Seq<char>, Value> {
    Map::empty()
}

/// What a lookup of `key` finds in `entries`.
pub open spec fn lookup(entries: Map<Seq<char>, Value>, key: Seq<char>) -> Option<Value> {
    if entries.contains_key(key) {
        Some(entries[key])
    } else {
        None
    }
}

/// `listing` names every entry of `entries` once, in some order.
pub open spec fn lists(listing: Seq<(Seq<char>, Value)>, entries: Map<Seq<char>, Value>) -> bool {
    &&& forall|i: int|
        0 <= i < listing.len() ==> entries.contains_key(#[trigger] listing[i].0)
            && entries[listing[i].0] == listing[i].1
    &&& forall|key: Seq<char>| #[trigger]
        entries.contains_key(key) ==> exists|i: int|
            0 <= i < listing.len() && #[trigger] listing[i].0 == key
    &&& forall|i: int, j: int|
        0 <= i < j < listing.len() ==> #[trigger] listing[i].0 != #[trigger] listing[j].0
}

/// Calls `DashMap::new`. Trusted: the new collection holds nothing.
#[verifier::external_body]
pub(crate) fn shards_new() -> (r: DashMap<String, Value>)
    ensures
        held(r) == no_entries(),
{
    DashMap::new()
}

/// Calls `DashMap::get` and copies the document out of the guard. Trusted:
/// the result is the document held under `key`, if there is one.
#[verifier::external_body]
pub(crate) fn shards_get(shards: &DashMap<String, Value>, key: &String) -> (r: Option<Value>)
    ensures
        r == lookup(held(*shards), key@),
{
    shards.get(key).map(|entry| entry.value().clone())
}

/// Calls `DashMap::insert`. Trusted: afterwards `key` holds `value`, every
/// other key is as before, and the result is what `key` held before.
#[verifier::external_body]
pub(crate) fn shards_insert(shards: &mut DashMap<String, Value>, key: String, value: Value) -> (r:
    Option<Value>)
    ensures
        held(*final(shards)) == held(*old(shards)).insert(key@, value),
        r == lookup(held(*old(shards)), key@),
{
    shards.insert(key, value)
}

/// Calls `DashMap::alter` with a function that gives `value`. Trusted: a key
/// that is held gets `value`, and nothing changes where it is not held.
#[verifier::external_body]
pub(crate) fn shards_alter(shards: &mut DashMap<String, Value>, key: &String, value: Value)
    ensures
        held(*final(shards)) == if held(*old(shards)).contains_key(key@) {
            held(*old(shards)).insert(key@, value)
        } else {
            held(*old(shards))
        },
{
    shards.alter(key, |_, _| value)
}

/// Calls `DashMap::remove`. Trusted: afterwards `key` is not held, every
/// other key is as before, and the result is the entry that left, if any.
#[verifier::external_body]
pub(crate) fn shards_remove(shards: &mut DashMap<String, Value>, key: &String) -> (r: Option<
    (String, Value),
>)
    ensures
        held(*final(shards)) == held(*old(shards)).remove(key@),
        r is Some <==> held(*old(shards)).contains_key(key@),
        r matches Some(entry) ==> entry.0@ == key@ && entry.1 == held(*old(shards))[key@],
{
    shards.remove(key)
}

/// Walks `DashMap::iter` and copies each entry out. Trusted: the result
/// names every entry that is held exactly once; the order is not stated.
#[verifier::external_body]
pub(crate) fn shards_entries(shards: &DashMap<String, Value>) -> (r: Vec<(String, Value)>)
    ensures
        lists(crate::json::entry_views(r@), held(*shards)),
{
    shards.iter().map(|entry| (entry.key().clone(), entry.value().clone())).collect()
}

} // verus!
