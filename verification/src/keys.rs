//! Walking a hash map: its keys as a list, and emptying it entry by entry.

use std::collections::HashMap;
use vstd::prelude::*;
use vstd::std_specs::hash::{obeys_key_model, spec_keys_iter};
use vstd::std_specs::iter::IteratorSpec;

verus! {

broadcast use vstd::std_specs::hash::group_hash_axioms;

/// The keys of a map, each once, in the order the map is walked.
pub fn keys_of<K: Copy + core::hash::Hash + Eq, V>(m: &HashMap<K, V>) -> (ks: Vec<K>)
    requires
        obeys_key_model::<K>(),
    ensures
        ks@.to_set() == m@.dom(),
        ks@.no_duplicates(),
        ks@.len() == m@.dom().len(),
{
    let mut ks: Vec<K> = Vec::new();
    for k in iter: m.keys()
        invariant
            ks@.len() == iter.index(),
            iter.seq() == spec_keys_iter(m).remaining(),
            forall|j: int| 0 <= j < ks@.len() ==> ks@[j] == *iter.seq()[j],
    {
        ks.push(*k);
    }
    proof {
        let all = spec_keys_iter(m).remaining();
        assert(ks@ =~= all.unref());
    }
    ks
}

/// Takes every entry out of a map and hands back the values, one for each
/// key that the map held.
pub fn drain_values<K: Copy + core::hash::Hash + Eq, V>(m: &mut HashMap<K, V>) -> (vals: Vec<V>)
    requires
        obeys_key_model::<K>(),
    ensures
        final(m)@ == Map::<K, V>::empty(),
        vals@.len() == old(m)@.dom().len(),
        forall|k: K| old(m)@.contains_key(k) ==> vals@.contains(#[trigger] old(m)@[k]),
{
    let ks = keys_of(m);
    let mut vals: Vec<V> = Vec::new();
    let mut i: usize = 0;
    assert(ks@.skip(0) =~= ks@);
    while i < ks.len()
        invariant
            obeys_key_model::<K>(),
            i <= ks@.len(),
            ks@.no_duplicates(),
            ks@.to_set() == old(m)@.dom(),
            ks@.len() == old(m)@.dom().len(),
            vals@.len() == i,
            m@.dom() == ks@.skip(i as int).to_set(),
            forall|k: K| #[trigger] m@.contains_key(k) ==> m@[k] == old(m)@[k],
            forall|j: int| 0 <= j < i ==> #[trigger] vals@[j] == old(m)@[ks@[j]],
        decreases ks@.len() - i,
    {
        let k = ks[i];
        assert(ks@.skip(i as int)[0] == k);
        match m.remove(&k) {
            Some(v) => vals.push(v),
            None => {},
        }
        proof {
            let cur = ks@.skip(i as int);
            let rest = ks@.skip(i + 1);
            assert forall|x: K| rest.contains(x) <==> (x != k && cur.contains(x)) by {
                if rest.contains(x) {
                    let j = rest.index_of(x);
                    assert(cur[j + 1] == x);
                }
                if x != k && cur.contains(x) {
                    let j = cur.index_of(x);
                    assert(rest[j - 1] == x);
                }
            }
        }
        i += 1;
    }
    proof {
        assert forall|k: K| old(m)@.contains_key(k) implies vals@.contains(
            #[trigger] old(m)@[k],
        ) by {
            let j = ks@.index_of(k);
            assert(vals@[j] == old(m)@[k]);
        }
    }
    vals
}

} // verus!
