//! The abstract state of the counter store and the laws that govern it.
//!
//! A store is modelled as a map from page keys (sequences of characters,
//! treated as opaque identifiers) to the number of views recorded for each.
//! A key that was never viewed is simply absent and counts as zero.

use vstd::prelude::*;

verus! {

/// The abstract contents of a counter store: the recorded view count of
/// every page key that has been viewed at least once.
pub type Views = Map<Seq<char>, nat>;

/// The count stored for key `k`; a key with no entry counts as zero views.
pub open spec fn views_of(m: Views, k: Seq<char>) -> nat {
    if m.dom().contains(k) {
        m[k]
    } else {
        0
    }
}

/// The count a successful `record_view(k)` reports: the stored count after
/// its increment.
pub open spec fn view_result(m: Views, k: Seq<char>) -> nat {
    views_of(m, k) + 1
}

/// The store's contents after one successful `record_view(k)`.
pub open spec fn bumped(m: Views, k: Seq<char>) -> Views {
    m.insert(k, view_result(m, k))
}

/// The store's contents after `n` successful `record_view(k)` calls.
pub open spec fn bumped_n(m: Views, k: Seq<char>, n: nat) -> Views
    decreases n,
{
    if n == 0 {
        m
    } else {
        bumped(bumped_n(m, k, (n - 1) as nat), k)
    }
}

/// The counts reported by `n` successful `record_view(k)` calls, in call
/// order.
pub open spec fn run_results(m: Views, k: Seq<char>, n: nat) -> Seq<nat>
    decreases n,
{
    if n == 0 {
        Seq::empty()
    } else {
        run_results(m, k, (n - 1) as nat).push(view_result(bumped_n(m, k, (n - 1) as nat), k))
    }
}

/// `n` successful views of `k` raise `k`'s stored count by exactly `n`:
/// the count never decreases and never skips.
pub proof fn lemma_bumped_n_count(m: Views, k: Seq<char>, n: nat)
    ensures
        views_of(bumped_n(m, k, n), k) == views_of(m, k) + n,
    decreases n,
{
    if n > 0 {
        lemma_bumped_n_count(m, k, (n - 1) as nat);
    }
}

/// First view: a key never seen before yields the count 1.
pub proof fn lemma_first_view(m: Views, k: Seq<char>)
    requires
        !m.dom().contains(k),
    ensures
        view_result(m, k) == 1,
{
}

/// Monotonic increment: `n` sequential views of a fresh key report the
/// counts `1, 2, ..., n`, in that order.
pub proof fn lemma_sequential_results(m: Views, k: Seq<char>, n: nat)
    requires
        !m.dom().contains(k),
    ensures
        run_results(m, k, n).len() == n,
        forall|j: int| 0 <= j < n ==> run_results(m, k, n)[j] == j + 1,
    decreases n,
{
    if n > 0 {
        lemma_sequential_results(m, k, (n - 1) as nat);
        lemma_bumped_n_count(m, k, (n - 1) as nat);
    }
}

/// Key independence: a view of `k1` leaves every other key's stored count,
/// and the count its next view would report, unchanged.
pub proof fn lemma_key_independence(m: Views, k1: Seq<char>, k2: Seq<char>)
    requires
        k1 != k2,
    ensures
        views_of(bumped(m, k1), k2) == views_of(m, k2),
        view_result(bumped(m, k1), k2) == view_result(m, k2),
{
}

/// Key independence at the store's boundary: a call that touched at most
/// key `k` — every other entry carried over — leaves every other key's
/// stored count, and the count its next view would report, unchanged. This
/// holds of `record_view` whatever its outcome.
pub proof fn lemma_untouched_key(m1: Views, m2: Views, k: Seq<char>, k2: Seq<char>)
    requires
        m1.remove(k) == m2.remove(k),
        k2 != k,
    ensures
        views_of(m2, k2) == views_of(m1, k2),
        view_result(m2, k2) == view_result(m1, k2),
{
    assert(m1.remove(k).dom().contains(k2) <==> m1.dom().contains(k2));
    assert(m2.remove(k).dom().contains(k2) <==> m2.dom().contains(k2));
    if m1.dom().contains(k2) {
        assert(m1.remove(k)[k2] == m1[k2]);
        assert(m2.remove(k)[k2] == m2[k2]);
    }
}

/// Key independence over a whole run: any number of views of `k1` leaves
/// `k2`'s stored count unchanged.
pub proof fn lemma_key_independence_n(m: Views, k1: Seq<char>, k2: Seq<char>, n: nat)
    requires
        k1 != k2,
    ensures
        views_of(bumped_n(m, k1, n), k2) == views_of(m, k2),
    decreases n,
{
    if n > 0 {
        lemma_key_independence_n(m, k1, k2, (n - 1) as nat);
    }
}

/// A serialized burst: `n` views of a fresh key leave its stored count at
/// exactly `n`, and the reported counts are pairwise distinct and cover
/// `{1, ..., n}` exactly — no duplicates, no gaps.
pub proof fn lemma_burst_of_views(m: Views, k: Seq<char>, n: nat)
    requires
        !m.dom().contains(k),
    ensures
        views_of(bumped_n(m, k, n), k) == n,
        forall|i: int, j: int|
            0 <= i < j < n ==> run_results(m, k, n)[i] != run_results(m, k, n)[j],
        run_results(m, k, n).to_set() =~= Set::new(|v: nat| 1 <= v <= n),
{
    lemma_bumped_n_count(m, k, n);
    lemma_sequential_results(m, k, n);
    let results = run_results(m, k, n);
    assert forall|v: nat| results.to_set().contains(v) implies 1 <= v <= n by {
        let j = choose|j: int| 0 <= j < results.len() && results[j] == v;
        assert(results[j] == j + 1);
    }
    assert forall|v: nat| 1 <= v <= n implies results.to_set().contains(v) by {
        assert(results[v - 1] == v);
    }
}

} // verus!
