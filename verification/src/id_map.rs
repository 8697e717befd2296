//! A table from one 64-bit identity to another, kept in bevy's hash map.
//!
//! Nothing in this file is proved. Each function states what the hash map's
//! own documentation promises of the method it calls.

use vstd::prelude::*;

verus! {

/// bevy's `HashMap<u64, u64>` (`bevy::utils::HashMap`, hashbrown's map with a
/// fixed hasher). Its allocator parameter is bounded by a trait that cannot be
/// named from here, so the map is held in a private field and Verus is told
/// nothing of its inside.
#[verifier::external_body]
#[derive(Debug)]
pub struct IdMap {
    inner: bevy::utils::HashMap<u64, u64>,
}

/// The key-value pairs that the table holds.
pub uninterp spec fn id_map_entries(m: IdMap) -> Map<u64, u64>;

/// Calls `HashMap::default`: the new table holds nothing.
#[verifier::external_body]
pub(crate) fn id_map_new() -> (m: IdMap)
    ensures
        id_map_entries(m) == (Map::<u64, u64>::empty()),
{
    IdMap { inner: bevy::utils::HashMap::default() }
}

/// Calls `HashMap::get`: the value stored under `key`, if there is one. The
/// table is left as it was.
#[verifier::external_body]
pub(crate) fn id_map_get(m: &IdMap, key: u64) -> (value: Option<u64>)
    ensures
        value == (if id_map_entries(*m).contains_key(key) {
            Some(id_map_entries(*m)[key])
        } else {
            None
        }),
{
    m.inner.get(&key).copied()
}

/// Calls `HashMap::insert`: afterwards `key` leads to `value` and every
/// other key is as before. What `key` led to before is not handed on.
#[verifier::external_body]
pub(crate) fn id_map_insert(m: &mut IdMap, key: u64, value: u64)
    ensures
        id_map_entries(*final(m)) == id_map_entries(*old(m)).insert(key, value),
{
    m.inner.insert(key, value);
}

/// Calls `HashMap::remove`: afterwards `key` is absent, every other key is as
/// before, and the value that `key` led to before is handed back.
#[verifier::external_body]
pub(crate) fn id_map_remove(m: &mut IdMap, key: u64) -> (previous: Option<u64>)
    ensures
        id_map_entries(*final(m)) == id_map_entries(*old(m)).remove(key),
        previous == (if id_map_entries(*old(m)).contains_key(key) {
            Some(id_map_entries(*old(m))[key])
        } else {
            None
        }),
{
    m.inner.remove(&key)
}

} // verus!
