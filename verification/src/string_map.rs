//! String-to-string maps that remember the order in which keys first came.

use indexmap::IndexMap;
use vstd::prelude::*;

verus! {

/// The insertion-ordered hash map of the `indexmap` crate. Verus sees nothing
/// inside it; [`map_entries`] stands for what it holds.
#[verifier::external_type_specification]
#[verifier::external_body]
#[verifier::reject_recursive_types(K)]
#[verifier::reject_recursive_types(V)]
#[verifier::reject_recursive_types(S)]
pub struct ExIndexMap<K, V, S>(indexmap::IndexMap<K, V, S>);

/// The key-value pairs of a map, in the map's order.
pub uninterp spec fn map_entries(map: IndexMap<String, String>) -> Seq<(Seq<char>, Seq<char>)>;

/// Whether `key` stands in some pair.
pub open spec fn has_key(entries: Seq<(Seq<char>, Seq<char>)>, key: Seq<char>) -> bool {
    exists|i: int| 0 <= i < entries.len() && #[trigger] entries[i].0 == key
}

/// No key stands in two pairs.
pub open spec fn distinct_keys(entries: Seq<(Seq<char>, Seq<char>)>) -> bool {
    forall|i: int, j: int|
        0 <= i < j < entries.len() ==> #[trigger] entries[i].0 != #[trigger] entries[j].0
}

/// The pairs after `key` was set to `value`: a key that was there keeps its
/// place and takes the new value, a new key goes last.
pub open spec fn entries_insert(
    entries: Seq<(Seq<char>, Seq<char>)>,
    key: Seq<char>,
    value: Seq<char>,
) -> Seq<(Seq<char>, Seq<char>)> {
    if has_key(entries, key) {
        Seq::new(
            entries.len(),
            |i: int|
                if entries[i].0 == key {
                    (key, value)
                } else {
                    entries[i]
                },
        )
    } else {
        entries.push((key, value))
    }
}

/// `IndexMap::new`: the new map holds nothing.
#[verifier::external_body]
pub(crate) fn map_new() -> (map: IndexMap<String, String>)
    ensures
        map_entries(map) == Seq::<(Seq<char>, Seq<char>)>::empty(),
{
    IndexMap::new()
}

/// `IndexMap::insert`: an equivalent key that is already there keeps its place
/// in the order, its value is replaced, and the older value is returned; a new
/// key goes last, and nothing is returned.
#[verifier::external_body]
pub(crate) fn map_insert(map: &mut IndexMap<String, String>, key: String, value: String) -> (older:
    Option<String>)
    ensures
        map_entries(*final(map)) == entries_insert(map_entries(*old(map)), key@, value@),
        older is Some <==> has_key(map_entries(*old(map)), key@),
        older matches Some(text) ==> map_entries(*old(map)).contains((key@, text@)),
{
    map.insert(key, value)
}

/// `IndexMap::clone`: the copy holds the same pairs in the same order.
#[verifier::external_body]
pub(crate) fn map_clone(map: &IndexMap<String, String>) -> (copy: IndexMap<String, String>)
    ensures
        map_entries(copy) == map_entries(*map),
{
    map.clone()
}

} // verus!
