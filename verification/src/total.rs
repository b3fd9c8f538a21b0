//! The sum of all amounts held in a finite map.

use vstd::prelude::*;

verus! {

/// The sum of the amounts of all keys of `m`. Meaningful for maps with a finite domain.
pub open spec fn total<K>(m: Map<K, nat>) -> nat
    decreases m.dom().len(),
    when m.dom().finite()
{
    if m.dom().is_empty() {
        0
    } else {
        let k = m.dom().choose();
        m[k] + total(m.remove(k))
    }
}

/// The amount that `m` holds for `k`; a key without an entry holds nothing.
pub open spec fn amount_at<K>(m: Map<K, nat>, k: K) -> nat {
    if m.dom().contains(k) {
        m[k]
    } else {
        0
    }
}

/// The empty map sums to zero.
pub proof fn lemma_total_empty<K>()
    ensures
        total(Map::<K, nat>::empty()) == 0,
{
}

/// Any one key can be split off the sum.
pub proof fn lemma_total_remove<K>(m: Map<K, nat>, k: K)
    requires
        m.dom().finite(),
        m.dom().contains(k),
    ensures
        total(m) == m[k] + total(m.remove(k)),
    decreases m.dom().len(),
{
    let c = m.dom().choose();
    if c != k {
        lemma_total_remove(m.remove(c), k);
        lemma_total_remove(m.remove(k), c);
        assert(m.remove(c).remove(k) =~= m.remove(k).remove(c));
    }
}

/// Writing `v` at `k` replaces what `k` held before in the sum.
pub proof fn lemma_total_insert<K>(m: Map<K, nat>, k: K, v: nat)
    requires
        m.dom().finite(),
    ensures
        total(m.insert(k, v)) + amount_at(m, k) == total(m) + v,
{
    let w = m.insert(k, v);
    lemma_total_remove(w, k);
    assert(w.remove(k) =~= m.remove(k));
    if m.dom().contains(k) {
        lemma_total_remove(m, k);
    } else {
        assert(m.remove(k) =~= m);
    }
}

/// No key holds more than the sum.
pub proof fn lemma_total_bounds_each<K>(m: Map<K, nat>, k: K)
    requires
        m.dom().finite(),
    ensures
        amount_at(m, k) <= total(m),
{
    if m.dom().contains(k) {
        lemma_total_remove(m, k);
    }
}

} // verus!
