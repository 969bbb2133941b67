//! Maps keyed by id, walked in the order of the ids.

use crate::error::Uuid;
use std::collections::BTreeMap;
use vstd::prelude::*;
use vstd::std_specs::btree::{axiom_increasing_seq_meaning, increasing_seq};
use vstd::std_specs::cmp::OrdSpec;
use vstd::std_specs::iter::IteratorSpec;

verus! {

broadcast use vstd::std_specs::btree::group_btree_axioms;

/// The keys are exactly the ids of the map, each once, in rising order.
pub open spec fn is_key_list<V>(map: Map<Uuid, V>, keys: Seq<Uuid>) -> bool {
    &&& forall|i: int| 0 <= i < keys.len() ==> map.contains_key(#[trigger] keys[i])
    &&& forall|id: Uuid| map.contains_key(id) ==> keys.contains(id)
    &&& forall|i: int, j: int| 0 <= i < j < keys.len() ==> keys[i] < keys[j]
}

/// The ids of the map, in rising order.
pub fn sorted_keys<V>(map: &BTreeMap<Uuid, V>) -> (res: Vec<Uuid>)
    ensures
        is_key_list(map@, res@),
{
    broadcast use vstd::laws_cmp::group_laws_cmp;

    let mut res: Vec<Uuid> = Vec::new();
    let entries = map.iter();
    let ghost all = entries.remaining();
    let ghost ordered = all.map_values(|kv: (&Uuid, &V)| *kv.0);
    assert(increasing_seq(ordered));
    for kv in it: entries
        invariant
            res@.len() == it.index(),
            forall|i: int| 0 <= i < it.index() ==> res@[i] == *it.seq()[i].0,
            it.seq() == all,
    {
        res.push(*kv.0);
    }
    proof {
        assert(res@ =~= ordered);
        axiom_increasing_seq_meaning(ordered);
        assert forall|i: int, j: int| 0 <= i < j < res@.len() implies res@[i] < res@[j] by {
            assert(ordered[i].cmp_spec(&ordered[j]) is Less);
        }
        assert forall|id: Uuid| map@.contains_key(id) implies res@.contains(id) by {
            assert(all.contains((&id, &map@[id])));
            let w = choose|w: int| 0 <= w < all.len() && all[w] == (&id, &map@[id]);
            assert(res@[w] == id);
        }
        assert forall|i: int| 0 <= i < res@.len() implies map@.contains_key(#[trigger] res@[i]) by {
            assert(map@.contains_key(*all[i].0));
        }
    }
    res
}

/// The value at the id, if the map has one.
pub fn lookup<'a, V>(map: &'a BTreeMap<Uuid, V>, id: Uuid) -> (res: Option<&'a V>)
    ensures
        res is Some <==> map@.contains_key(id),
        res matches Some(value) ==> *value == map@[id],
{
    broadcast use vstd::laws_cmp::group_laws_cmp;

    map.get(&id)
}

/// Puts the value at the id, unless the map has a value there already.
pub fn insert_new<V>(map: &mut BTreeMap<Uuid, V>, id: Uuid, value: V) -> (res: bool)
    ensures
        res == !old(map)@.contains_key(id),
        res ==> final(map)@ == old(map)@.insert(id, value),
        !res ==> final(map)@ == old(map)@,
{
    broadcast use vstd::laws_cmp::group_laws_cmp;

    if map.contains_key(&id) {
        false
    } else {
        map.insert(id, value);
        true
    }
}

} // verus!
