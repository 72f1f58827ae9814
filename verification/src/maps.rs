//! Helpers on maps keyed by conversation identifiers.
use std::collections::HashMap;
use vstd::prelude::*;
use vstd::std_specs::hash::spec_keys_iter;
use vstd::std_specs::iter::IteratorSpec;
verus! {
/// The keys of `m`, each once, in some order.
pub fn map_keys<V>(m: &HashMap<u128, V>) -> (r: Vec<u128>)
    ensures
        r@.to_set() == m@.dom(),
        r@.no_duplicates(),
{
    let ghost ks = spec_keys_iter(m).remaining().unref();
    let mut out: Vec<u128> = Vec::new();
    for k in it: m.keys()
        invariant
            it.seq().unref() == ks,
            out@ == ks.take(it.index() as int),
    {
        out.push(*k);
        proof { assert(out@ =~= ks.take(it.index() + 1)); }
    }
    proof {
        assert(out@ =~= ks);
    }
    out
}
}
