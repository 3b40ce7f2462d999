//! Stable sorting by insertion, and positions in sequences.
use vstd::multiset::*;
use vstd::prelude::*;
use vstd::seq_lib::*;

verus! {

/// The first position at which `s` holds `x`.
pub open spec fn first_position<A>(s: Seq<A>, x: A) -> Option<int>
    decreases s.len(),
{
    if s.len() == 0 {
        None
    } else if s[0] == x {
        Some(0)
    } else {
        match first_position(s.drop_first(), x) {
            Some(i) => Some(i + 1),
            None => None,
        }
    }
}

/// `first_position` is the least position with the value, and `None` where there is no such
/// position.
pub proof fn lemma_first_position<A>(s: Seq<A>, x: A)
    ensures
        match first_position(s, x) {
            Some(i) => 0 <= i < s.len() && s[i] == x && forall|j: int| 0 <= j < i ==> s[j] != x,
            None => !s.contains(x),
        },
    decreases s.len(),
{
    if s.len() > 0 && s[0] != x {
        let rest = s.drop_first();
        lemma_first_position(rest, x);
        match first_position(rest, x) {
            Some(i) => {
                assert(s[i + 1] == rest[i]);
                assert forall|j: int| 0 <= j < i + 1 implies s[j] != x by {
                    if j > 0 {
                        assert(s[j] == rest[j - 1]);
                    }
                }
            },
            None => {
                if s.contains(x) {
                    let j = choose|j: int| 0 <= j < s.len() && s[j] == x;
                    assert(rest[j - 1] == x);
                }
            },
        }
    }
}

/// A position with the value and none before it is `first_position`.
pub proof fn lemma_first_position_is<A>(s: Seq<A>, x: A, i: int)
    requires
        0 <= i < s.len(),
        s[i] == x,
        forall|j: int| 0 <= j < i ==> s[j] != x,
    ensures
        first_position(s, x) == Some(i),
{
    lemma_first_position(s, x);
    assert(s.contains(x));
}

/// Puts `x` into `s` behind the last element that may stand before it.
pub open spec fn stable_insert<A>(s: Seq<A>, x: A, before: spec_fn(A, A) -> bool) -> Seq<A>
    decreases s.len(),
{
    if s.len() == 0 || before(s.last(), x) {
        s.push(x)
    } else {
        stable_insert(s.drop_last(), x, before).push(s.last())
    }
}

/// The elements of `s` put in order one by one, each behind the earlier elements that it does
/// not have to precede.
pub open spec fn stable_sort<A>(s: Seq<A>, before: spec_fn(A, A) -> bool) -> Seq<A>
    decreases s.len(),
{
    if s.len() == 0 {
        s
    } else {
        stable_insert(stable_sort(s.drop_last(), before), s.last(), before)
    }
}

/// Whether `before` compares every two elements, and consistently.
pub open spec fn total_preorder<A>(before: spec_fn(A, A) -> bool) -> bool {
    &&& forall|a: A, b: A| #[trigger] before(a, b) || before(b, a)
    &&& forall|a: A, b: A, c: A| #[trigger] before(a, b) && #[trigger] before(b, c) ==> before(a, c)
}

/// `stable_insert` puts `x` at position `k`, where every element behind `k` has to follow `x`
/// and the one before `k` may stay before it.
pub proof fn lemma_stable_insert_at<A>(s: Seq<A>, x: A, before: spec_fn(A, A) -> bool, k: int)
    requires
        0 <= k <= s.len(),
        k == 0 || before(s[k - 1], x),
        forall|i: int| k <= i < s.len() ==> !before(#[trigger] s[i], x),
    ensures
        stable_insert(s, x, before) == s.insert(k, x),
    decreases s.len() - k,
{
    if k == s.len() {
        assert(s.insert(k, x) =~= s.push(x));
    } else {
        assert(!before(s[s.len() - 1], x));
        lemma_stable_insert_at(s.drop_last(), x, before, k);
        assert(s.drop_last().insert(k, x).push(s.last()) =~= s.insert(k, x));
    }
}

proof fn lemma_insert_multiset<A>(s: Seq<A>, x: A, before: spec_fn(A, A) -> bool)
    ensures
        stable_insert(s, x, before).to_multiset() == s.to_multiset().insert(x),
        stable_insert(s, x, before).len() == s.len() + 1,
    decreases s.len(),
{
    broadcast use group_to_multiset_ensures;

    if s.len() == 0 || before(s.last(), x) {
    } else {
        lemma_insert_multiset(s.drop_last(), x, before);
        assert(s.drop_last().push(s.last()) =~= s);
        assert(s.drop_last().to_multiset().insert(s.last()) =~= s.to_multiset());
        assert(stable_insert(s, x, before).to_multiset() =~= s.to_multiset().insert(x));
    }
}

/// Sorting rearranges: every element occurs as often as before.
pub proof fn law_sort_permutes<A>(s: Seq<A>, before: spec_fn(A, A) -> bool)
    ensures
        stable_sort(s, before).to_multiset() == s.to_multiset(),
        stable_sort(s, before).len() == s.len(),
    decreases s.len(),
{
    broadcast use group_to_multiset_ensures;

    if s.len() > 0 {
        law_sort_permutes(s.drop_last(), before);
        lemma_insert_multiset(stable_sort(s.drop_last(), before), s.last(), before);
        assert(s.drop_last().push(s.last()) =~= s);
    }
}

/// Sorting keeps the set of elements.
pub proof fn lemma_sort_contains<A>(s: Seq<A>, before: spec_fn(A, A) -> bool, x: A)
    ensures
        stable_sort(s, before).contains(x) <==> s.contains(x),
{
    broadcast use group_to_multiset_ensures;

    law_sort_permutes(s, before);
    assert(stable_sort(s, before).contains(x) <==> stable_sort(s, before).to_multiset().count(x) > 0);
    assert(s.contains(x) <==> s.to_multiset().count(x) > 0);
}

proof fn lemma_insert_sorted<A>(s: Seq<A>, x: A, before: spec_fn(A, A) -> bool)
    requires
        total_preorder(before),
        sorted_by(s, before),
    ensures
        sorted_by(stable_insert(s, x, before), before),
        s.len() > 0 && !before(s.last(), x) ==> stable_insert(s, x, before).last() == s.last(),
    decreases s.len(),
{
    let r = stable_insert(s, x, before);
    if s.len() == 0 || before(s.last(), x) {
        assert forall|i: int, j: int| 0 <= i < j < r.len() implies #[trigger] before(r[i], r[j]) by {
            if j == s.len() {
                if i < s.len() - 1 {
                    assert(before(s[i], s[s.len() - 1]));
                    assert(before(s.last(), x));
                }
            } else {
                assert(before(s[i], s[j]));
            }
        }
    } else {
        let front = s.drop_last();
        assert forall|i: int, j: int| 0 <= i < j < front.len() implies #[trigger] before(
            front[i],
            front[j],
        ) by {
            assert(before(s[i], s[j]));
        }
        lemma_insert_sorted(front, x, before);
        lemma_insert_multiset(front, x, before);
        let q = stable_insert(front, x, before);
        assert forall|i: int, j: int| 0 <= i < j < r.len() implies #[trigger] before(r[i], r[j]) by {
            if j == r.len() - 1 {
                assert(r[i] == q[i]);
                lemma_insert_contains(front, x, before, q[i]);
                assert(q.contains(q[i]));
                if q[i] == x {
                    assert(before(x, s.last()));
                } else {
                    let m = choose|m: int| 0 <= m < front.len() && front[m] == q[i];
                    assert(before(s[m], s[s.len() - 1]));
                }
            } else {
                assert(before(q[i], q[j]));
            }
        }
    }
}

/// Putting an element in keeps the others.
pub proof fn lemma_insert_contains<A>(s: Seq<A>, x: A, before: spec_fn(A, A) -> bool, y: A)
    ensures
        stable_insert(s, x, before).contains(y) <==> s.contains(y) || y == x,
{
    broadcast use group_to_multiset_ensures;

    lemma_insert_multiset(s, x, before);
    let r = stable_insert(s, x, before);
    assert(r.contains(y) <==> r.to_multiset().count(y) > 0);
    assert(s.contains(y) <==> s.to_multiset().count(y) > 0);
}

/// Whether each element of `s` may stand before all that follow it.
pub open spec fn sorted_by<A>(s: Seq<A>, before: spec_fn(A, A) -> bool) -> bool {
    forall|i: int, j: int| 0 <= i < j < s.len() ==> #[trigger] before(s[i], s[j])
}

/// Sorting sorts.
pub proof fn law_sort_sorts<A>(s: Seq<A>, before: spec_fn(A, A) -> bool)
    requires
        total_preorder(before),
    ensures
        sorted_by(stable_sort(s, before), before),
    decreases s.len(),
{
    if s.len() > 0 {
        law_sort_sorts(s.drop_last(), before);
        lemma_insert_sorted(stable_sort(s.drop_last(), before), s.last(), before);
    }
}

/// Two elements neither of which has to precede the other.
pub open spec fn tied<A>(before: spec_fn(A, A) -> bool, pivot: A) -> spec_fn(A) -> bool {
    |a: A| before(a, pivot) && before(pivot, a)
}

proof fn lemma_filter_push<A>(s: Seq<A>, p: spec_fn(A) -> bool, x: A)
    ensures
        s.push(x).filter(p) == (if p(x) { s.filter(p).push(x) } else { s.filter(p) }),
{
    reveal(Seq::filter);
    assert(s.push(x).drop_last() =~= s);
}

proof fn lemma_insert_stable<A>(s: Seq<A>, x: A, before: spec_fn(A, A) -> bool, pivot: A)
    requires
        total_preorder(before),
        sorted_by(s, before),
    ensures
        stable_insert(s, x, before).filter(tied(before, pivot)) == s.push(x).filter(
            tied(before, pivot),
        ),
    decreases s.len(),
{
    let p = tied(before, pivot);
    if s.len() == 0 || before(s.last(), x) {
    } else {
        let front = s.drop_last();
        assert forall|i: int, j: int| 0 <= i < j < front.len() implies #[trigger] before(
            front[i],
            front[j],
        ) by {
            assert(before(s[i], s[j]));
        }
        lemma_insert_stable(front, x, before, pivot);
        let q = stable_insert(front, x, before);
        lemma_filter_push(q, p, s.last());
        lemma_filter_push(front, p, x);
        lemma_filter_push(s, p, x);
        assert(front.push(s.last()) =~= s);
        lemma_filter_push(front, p, s.last());
        // The last element has to follow `x`, so the two are not tied with one pivot.
        if p(x) && p(s.last()) {
            assert(before(s.last(), pivot) && before(pivot, x));
            assert(before(s.last(), x));
        }
    }
}

/// Sorting is stable: the elements tied with any one element keep their order.
pub proof fn law_sort_stable<A>(s: Seq<A>, before: spec_fn(A, A) -> bool, pivot: A)
    requires
        total_preorder(before),
    ensures
        stable_sort(s, before).filter(tied(before, pivot)) == s.filter(tied(before, pivot)),
    decreases s.len(),
{
    if s.len() > 0 {
        let front = s.drop_last();
        let p = tied(before, pivot);
        law_sort_stable(front, before, pivot);
        law_sort_sorts(front, before);
        lemma_insert_stable(stable_sort(front, before), s.last(), before, pivot);
        lemma_filter_push(stable_sort(front, before), p, s.last());
        lemma_filter_push(front, p, s.last());
        assert(front.push(s.last()) =~= s);
    }
}

} // verus!
