//! Reading the keys of a map keyed by numbers, copying a set of numbers, and changing one
//! value of a map in place.
use std::collections::{HashMap, HashSet};

use vstd::prelude::*;
use vstd::std_specs::iter::IteratorSpec;

verus! {

broadcast use vstd::std_specs::hash::group_hash_axioms;

/// The keys of `map`, each once, in the order the map walks them.
pub fn keys_of<V>(map: &HashMap<usize, V>) -> (r: Vec<usize>)
    ensures
        r@.to_set() == map@.dom(),
        r@.no_duplicates(),
        r@.len() == map@.len(),
{
    let mut keys: Vec<usize> = Vec::new();
    let ghost all = vstd::std_specs::hash::spec_keys_iter(map).remaining().unref();
    proof {
        vstd::std_specs::hash::axiom_spec_keys_iter(map);
    }
    for k in it: map.keys()
        invariant
            it.seq().unref() == all,
            all.to_set() == map@.dom(),
            all.no_duplicates(),
            all.len() == map@.dom().len(),
            keys@ == all.take(it.index()),
    {
        keys.push(*k);
        assert(all.take(it.index() + 1) =~= all.take(it.index()).push(all[it.index() as int]));
    }
    assert(all.take(all.len() as int) =~= all);
    keys
}

/// A set with the same numbers as `set`.
pub fn copy_set(set: &HashSet<usize>) -> (r: HashSet<usize>)
    ensures
        r@ == set@,
{
    let mut copy: HashSet<usize> = HashSet::new();
    let ghost all = vstd::std_specs::hash::spec_hash_keys_iter(set).remaining().unref();
    proof {
        vstd::std_specs::hash::axiom_spec_hash_keys_iter(set);
    }
    for k in it: set.iter()
        invariant
            it.seq().unref() == all,
            all.to_set() == set@,
            copy@ == all.take(it.index()).to_set(),
    {
        proof {
            let i = it.index();
            assert(all.take(i + 1) =~= all.take(i).push(all[i]));
            all.take(i).lemma_push_to_set_commute(all[i]);
        }
        copy.insert(*k);
    }
    assert(all.take(all.len() as int) =~= all);
    copy
}

/// `HashMap::get_mut`: a mutable reference to the value under `key`, if there is one.
///
/// Trusted: std documents that the reference is to the value stored under `key` and that
/// there is none when the key is absent; writing through the reference changes that value
/// and nothing else in the map.
#[verifier::external_body]
pub(crate) fn map_get_mut<'a, V>(map: &'a mut HashMap<usize, V>, key: usize) -> (r: Option<&'a mut V>)
    ensures
        match r {
            Some(value) => old(map)@.contains_key(key) && *value == old(map)@[key]
                && final(map)@ == old(map)@.insert(key, *final(value)),
            None => !old(map)@.contains_key(key) && final(map)@ == old(map)@,
        },
{
    map.get_mut(&key)
}

} // verus!
