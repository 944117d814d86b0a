use vstd::prelude::*;

verus! {

/// Sum of the values of `m` over the keys in `s`.
pub open spec fn sum_over(m: Map<u64, i128>, s: Set<u64>) -> int
    decreases s.len(),
    via sum_over_decreases
{
    if s.finite() && s.len() > 0 {
        let k = s.choose();
        m[k] + sum_over(m, s.remove(k))
    } else {
        0
    }
}

#[via_fn]
proof fn sum_over_decreases(m: Map<u64, i128>, s: Set<u64>) {
    if s.finite() && s.len() > 0 {
        let k = s.choose();
        assert(s.remove(k).len() < s.len());
    }
}

/// Sum of all balances recorded in `m`.
pub open spec fn balance_sum(m: Map<u64, i128>) -> int {
    sum_over(m, m.dom())
}

/// The value stored at `k`, zero where nothing is stored.
pub open spec fn value_at(m: Map<u64, i128>, k: u64) -> int {
    if m.contains_key(k) {
        m[k] as int
    } else {
        0
    }
}

proof fn lemma_sum_remove(m: Map<u64, i128>, s: Set<u64>, k: u64)
    requires
        s.finite(),
        s.contains(k),
    ensures
        sum_over(m, s) == m[k] + sum_over(m, s.remove(k)),
    decreases s.len(),
{
    let j = s.choose();
    if j != k {
        lemma_sum_remove(m, s.remove(j), k);
        lemma_sum_remove(m, s.remove(k), j);
        assert(s.remove(j).remove(k) =~= s.remove(k).remove(j));
    }
}

proof fn lemma_sum_frame(m1: Map<u64, i128>, m2: Map<u64, i128>, s: Set<u64>)
    requires
        s.finite(),
        forall|k: u64| s.contains(k) ==> m1[k] == m2[k],
    ensures
        sum_over(m1, s) == sum_over(m2, s),
    decreases s.len(),
{
    if s.len() > 0 {
        let k = s.choose();
        lemma_sum_frame(m1, m2, s.remove(k));
    }
}

proof fn lemma_sum_over_nonneg(m: Map<u64, i128>, s: Set<u64>)
    requires
        s.finite(),
        forall|k: u64| s.contains(k) ==> m[k] >= 0,
    ensures
        sum_over(m, s) >= 0,
    decreases s.len(),
{
    if s.len() > 0 {
        let k = s.choose();
        lemma_sum_over_nonneg(m, s.remove(k));
    }
}

/// Storing `v` at `k` changes the sum by `v` less what `k` held before.
pub proof fn lemma_sum_insert(m: Map<u64, i128>, k: u64, v: i128)
    requires
        m.dom().finite(),
    ensures
        balance_sum(m.insert(k, v)) == balance_sum(m) - value_at(m, k) + v,
{
    let m2 = m.insert(k, v);
    assert(m2.dom().finite());
    lemma_sum_remove(m2, m2.dom(), k);
    if m.contains_key(k) {
        lemma_sum_remove(m, m.dom(), k);
        assert(m2.dom().remove(k) =~= m.dom().remove(k));
        lemma_sum_frame(m2, m, m.dom().remove(k));
    } else {
        assert(m2.dom().remove(k) =~= m.dom());
        lemma_sum_frame(m2, m, m.dom());
    }
}

/// With no negative value, no single value exceeds the sum.
pub proof fn lemma_value_le_sum(m: Map<u64, i128>, a: u64)
    requires
        m.dom().finite(),
        forall|k: u64| m.contains_key(k) ==> m[k] >= 0,
    ensures
        0 <= value_at(m, a) <= balance_sum(m),
{
    if m.contains_key(a) {
        lemma_sum_remove(m, m.dom(), a);
        lemma_sum_over_nonneg(m, m.dom().remove(a));
    } else {
        lemma_sum_over_nonneg(m, m.dom());
    }
}

} // verus!
