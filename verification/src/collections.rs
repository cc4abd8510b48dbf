//! Verified helpers on the hash maps and hash sets that hold the state.

use std::collections::{HashMap, HashSet};
use vstd::prelude::*;
use vstd::std_specs::iter::IteratorSpec;

verus! {

/// The keys of a map, each once, in no particular order.
pub fn keys_of<V>(m: &HashMap<u64, V>) -> (r: Vec<u64>)
    ensures
        r@.no_duplicates(),
        forall|k: u64| r@.contains(k) <==> m@.contains_key(k),
{
    let mut v: Vec<u64> = Vec::new();
    for k in it: m.keys()
        invariant
            v@.len() == it.index(),
            forall|j: int| 0 <= j < v@.len() ==> v@[j] == *it.seq()[j],
            it.seq() == m.keys().remaining(),
    {
        v.push(*k);
    }
    proof {
        let keys = m.keys().remaining();
        assert(v@ =~= keys.unref());
        assert forall|k: u64| v@.contains(k) <==> m@.contains_key(k) by {
            assert(v@.to_set().contains(k) <==> v@.contains(k));
        }
    }
    v
}

/// A copy of a set of identifiers.
pub fn clone_ids(s: &HashSet<u64>) -> (r: HashSet<u64>)
    ensures
        r@ == s@,
{
    let mut out: HashSet<u64> = HashSet::new();
    for k in it: s.iter()
        invariant
            it.seq() == s.iter().remaining(),
            forall|x: u64|
                out@.contains(x) <==> exists|j: int|
                    0 <= j < it.index() && *(#[trigger] it.seq()[j]) == x,
    {
        let ghost before = out@;
        let ghost n = it.index();
        out.insert(*k);
        assert forall|x: u64|
            out@.contains(x) <==> exists|j: int|
                0 <= j < n + 1 && *(#[trigger] it.seq()[j]) == x by {
            if out@.contains(x) {
                if x == *k {
                    assert(*it.seq()[n] == x);
                } else {
                    assert(before.contains(x));
                    let j = choose|j: int| 0 <= j < n && *(#[trigger] it.seq()[j]) == x;
                    assert(0 <= j < n + 1 && *it.seq()[j] == x);
                }
            }
        }
    }
    proof {
        let keys = s.iter().remaining();
        assert forall|x: u64| out@.contains(x) <==> s@.contains(x) by {
            assert(keys.unref().to_set().contains(x) <==> keys.unref().contains(x));
            if out@.contains(x) {
                let j = choose|j: int| 0 <= j < keys.len() && *(#[trigger] keys[j]) == x;
                assert(keys.unref()[j] == x);
            }
            if keys.unref().contains(x) {
                let j = choose|j: int| 0 <= j < keys.unref().len() && keys.unref()[j] == x;
                assert(*keys[j] == x);
            }
        }
        assert(out@ =~= s@);
    }
    out
}

} // verus!
