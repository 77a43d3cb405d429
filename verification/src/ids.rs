//! Identifiers of rooms and lights: 128-bit numbers, drawn at random and
//! then moved to the nearest number that is still free.

use std::collections::HashMap;
use vstd::prelude::*;
use vstd::std_specs::hash::spec_keys_iter;
use vstd::std_specs::iter::IteratorSpec;

verus! {

broadcast use vstd::std_specs::hash::group_hash_axioms;

/// A random identifier.
///
/// Calls `uuid::Uuid::new_v4` and hands out the 128 bits of the result, as
/// `uuid::Uuid::as_u128` gives them. The number is drawn at random, all but
/// six of its bits: four say that the identifier is of version 4, and two
/// that it is of the usual variant. Two calls may return the same number.
#[verifier::external_body]
pub(crate) fn random_id() -> (id: u128)
    ensures
        (id >> 76) & 0xf == 4,
        (id >> 62) & 0x3 == 2,
{
    uuid::Uuid::new_v4().as_u128()
}

/// How many identifiers there are.
pub open spec fn id_count() -> int {
    0x1_0000_0000_0000_0000_0000_0000_0000_0000int
}

/// The number `steps` after `start`, going round from the largest 128-bit
/// number to zero.
pub open spec fn id_after(start: u128, steps: nat) -> u128
    recommends
        steps < id_count(),
{
    if start + steps < id_count() {
        (start + steps) as u128
    } else {
        (start + steps - id_count()) as u128
    }
}

/// Whether `id` is the first identifier, counting up from `start` and going
/// round, that is not in `taken`.
pub open spec fn first_free_from(taken: Set<u128>, start: u128, id: u128) -> bool {
    exists|steps: nat|
        {
            &&& id == #[trigger] id_after(start, steps)
            &&& !taken.contains(id)
            &&& forall|k: nat| k < steps ==> taken.contains(#[trigger] id_after(start, k))
        }
}

/// The first identifier from `start` on that is no key of `map`.
pub fn first_free_id<V>(map: &HashMap<u128, V>, start: u128) -> (id: u128)
    ensures
        !map@.contains_key(id),
        first_free_from(map@.dom(), start, id),
{
    let mut id = start;
    let ghost mut steps: nat = 0;
    let ghost mut seen: Set<u128> = Set::empty();
    while map.contains_key(&id)
        invariant
            id == id_after(start, steps),
            steps < id_count(),
            forall|k: nat| k < steps ==> map@.contains_key(#[trigger] id_after(start, k)),
            seen.finite(),
            seen.len() == steps,
            seen.subset_of(map@.dom()),
            forall|x: u128| seen.contains(x) <==> exists|k: nat| k < steps && x == #[trigger] id_after(start, k),
        decreases map@.dom().len() - seen.len(),
    {
        proof {
            // the identifier just tried was not tried before, so one more
            // key of the map is used up, and the map has fewer keys than
            // there are identifiers
            assert(!seen.contains(id));
            let ghost wider = seen.insert(id);
            vstd::set_lib::lemma_len_subset(wider, map@.dom());
            assert(map@.dom().len() <= usize::MAX) by {
                assert(map.len() == map@.len());
            }
            assert forall|x: u128| wider.contains(x) <==> exists|k: nat|
                k < steps + 1 && x == #[trigger] id_after(start, k) by {}
            seen = wider;
            steps = steps + 1;
        }
        id = id.wrapping_add(1);
    }
    id
}

/// The keys of a map, each once, in no particular order.
pub fn keys_of<V>(map: &HashMap<u128, V>) -> (keys: Vec<u128>)
    ensures
        keys@.no_duplicates(),
        keys@.to_set() == map@.dom(),
{
    let mut keys: Vec<u128> = Vec::new();
    let ghost all = spec_keys_iter(map).remaining();
    for key in it: map.keys()
        invariant
            it.seq() == all,
            keys@.len() == it.index(),
            forall|i: int| 0 <= i < keys@.len() ==> keys@[i] == *all[i],
    {
        keys.push(*key);
    }
    assert(keys@ =~= all.unref());
    keys
}

} // verus!
