//! Walking a map of addresses from the lowest address to the highest.

use vstd::prelude::*;
use vstd::std_specs::btree::*;
use vstd::std_specs::cmp::OrdSpec;
use vstd::std_specs::iter::IteratorSpec;
use std::collections::BTreeMap;

verus! {

/// Each element is below the next.
pub open spec fn ascending(s: Seq<u64>) -> bool {
    forall|i: int, j: int| 0 <= i < j < s.len() ==> s[i] < s[j]
}

/// `s` lists exactly the members of `d`, lowest first.
pub open spec fn lists_in_order(s: Seq<u64>, d: Set<u64>) -> bool {
    ascending(s) && s.to_set() == d
}

/// The members of a set of addresses, lowest first.
pub open spec fn in_order(d: Set<u64>) -> Seq<u64> {
    choose|s: Seq<u64>| lists_in_order(s, d)
}

/// Two ascending lists of the same addresses are the same list.
pub proof fn lemma_ascending_unique(a: Seq<u64>, b: Seq<u64>)
    requires
        ascending(a),
        ascending(b),
        a.to_set() == b.to_set(),
    ensures
        a == b,
    decreases a.len(),
{
    if a.len() == 0 {
        if b.len() > 0 {
            assert(b.contains(b[0]));
            assert(b.to_set().contains(b[0]));
            assert(a.to_set().contains(b[0]));
            assert(a.contains(b[0]));
        }
        assert(a =~= b);
    } else {
        let top = a.last();
        assert(a.contains(top));
        assert(a.to_set().contains(top));
        assert(b.to_set().contains(top));
        assert(b.contains(top));
        let j = choose|j: int| 0 <= j < b.len() && b[j] == top;
        assert(b.contains(b.last()));
        assert(b.to_set().contains(b.last()));
        assert(a.to_set().contains(b.last()));
        assert(a.contains(b.last()));
        let i = choose|i: int| 0 <= i < a.len() && a[i] == b.last();
        assert(b.last() == top);
        let a0 = a.drop_last();
        let b0 = b.drop_last();
        assert forall|x: u64| a0.to_set().contains(x) <==> b0.to_set().contains(x) by {
            if a0.contains(x) {
                let k = choose|k: int| 0 <= k < a0.len() && a0[k] == x;
                assert(a[k] == x);
                assert(a.contains(x));
                assert(a.to_set().contains(x));
                assert(b.to_set().contains(x));
                assert(b.contains(x));
                let l = choose|l: int| 0 <= l < b.len() && b[l] == x;
                assert(l < b.len() - 1);
                assert(b0[l] == x);
                assert(b0.contains(x));
            }
            if b0.contains(x) {
                let k = choose|k: int| 0 <= k < b0.len() && b0[k] == x;
                assert(b[k] == x);
                assert(b.contains(x));
                assert(b.to_set().contains(x));
                assert(a.to_set().contains(x));
                assert(a.contains(x));
                let l = choose|l: int| 0 <= l < a.len() && a[l] == x;
                assert(l < a.len() - 1);
                assert(a0[l] == x);
                assert(a0.contains(x));
            }
        }
        assert(a0.to_set() =~= b0.to_set());
        lemma_ascending_unique(a0, b0);
        assert(a =~= a0.push(top));
        assert(b =~= b0.push(top));
    }
}

/// An ascending list of the members of `d` is `in_order(d)`.
pub proof fn lemma_in_order(s: Seq<u64>, d: Set<u64>)
    requires
        lists_in_order(s, d),
    ensures
        s == in_order(d),
{
    lemma_ascending_unique(s, in_order(d));
}

/// What the map holds at the address `k`.
pub fn entry_at<V>(m: &BTreeMap<u64, V>, k: u64) -> (r: Option<&V>)
    ensures
        match r {
            Some(v) => m@.contains_key(k) && m@[k] == *v,
            None => !m@.contains_key(k),
        },
{
    broadcast use vstd::std_specs::btree::group_btree_axioms;
    broadcast use vstd::laws_cmp::group_laws_cmp;

    m.get(&k)
}

/// Takes what the map holds at the address `k` out of it.
pub fn take_entry<V>(m: &mut BTreeMap<u64, V>, k: u64) -> (r: Option<V>)
    ensures
        final(m)@ == old(m)@.remove(k),
        match r {
            Some(v) => old(m)@.contains_key(k) && old(m)@[k] == v,
            None => !old(m)@.contains_key(k),
        },
{
    broadcast use vstd::std_specs::btree::group_btree_axioms;
    broadcast use vstd::laws_cmp::group_laws_cmp;

    m.remove(&k)
}

/// Puts `v` at the address `k`, in place of what is there.
pub fn put_entry<V>(m: &mut BTreeMap<u64, V>, k: u64, v: V)
    ensures
        final(m)@ == old(m)@.insert(k, v),
{
    broadcast use vstd::std_specs::btree::group_btree_axioms;
    broadcast use vstd::laws_cmp::group_laws_cmp;

    m.insert(k, v);
}

/// The keys of a map of addresses, lowest first.
pub fn keys_in_order<V>(m: &BTreeMap<u64, V>) -> (r: Vec<u64>)
    ensures
        r@ == in_order(m@.dom()),
        lists_in_order(r@, m@.dom()),
{
    broadcast use vstd::std_specs::btree::group_btree_axioms;
    broadcast use vstd::laws_cmp::group_laws_cmp;

    let mut out: Vec<u64> = Vec::new();
    for kv in it: m.iter()
        invariant
            out@.len() == it.index(),
            forall|j: int| 0 <= j < out@.len() ==> out@[j] == *it.seq()[j].0,
    {
        out.push(*kv.0);
    }
    proof {
        let pairs = spec_btree_map_iter(m).remaining();
        let keys = pairs.map_values(|kv: (&u64, &V)| *kv.0);
        assert(out@ =~= keys);
        assert(increasing_seq(keys));
        assert forall|k: u64| out@.to_set().contains(k) <==> m@.dom().contains(k) by {
            if m@.dom().contains(k) {
                assert(pairs.contains((&k, &m@[k])));
                let i = choose|i: int| 0 <= i < pairs.len() && pairs[i] == (&k, &m@[k]);
                assert(out@[i] == k);
                assert(out@.contains(k));
            }
            if out@.to_set().contains(k) {
                assert(out@.contains(k));
                let i = choose|i: int| 0 <= i < out@.len() && out@[i] == k;
                assert(m@.contains_key(*pairs[i].0));
            }
        }
        assert(out@.to_set() =~= m@.dom());
        assert forall|i: int, j: int| 0 <= i < j < out@.len() implies out@[i] < out@[j] by {
            assert(keys[i].cmp_spec(&keys[j]) is Less);
        }
        lemma_in_order(out@, m@.dom());
    }
    out
}

} // verus!
