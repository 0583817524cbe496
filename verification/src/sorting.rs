//! Stable ordering of a sequence by an integer rank, stated without
//! reference to any algorithm.

use vstd::prelude::*;

verus! {

/// No element stands before one of lower rank.
pub open spec fn ascending<A>(list: Seq<A>, rank: spec_fn(A) -> int) -> bool {
    forall|i: int, j: int| 0 <= i < j < list.len() ==> rank(list[i]) <= rank(list[j])
}

/// The test for rank `k`.
pub open spec fn has_rank<A>(rank: spec_fn(A) -> int, k: int) -> spec_fn(A) -> bool {
    |a: A| rank(a) == k
}

/// The elements of rank `k`, in the order in which the list holds them.
pub open spec fn of_rank<A>(list: Seq<A>, rank: spec_fn(A) -> int, k: int) -> Seq<A> {
    list.filter(has_rank(rank, k))
}

/// `sorted` holds the elements of `given` in ascending rank, and elements
/// of equal rank in the order in which `given` holds them.
pub open spec fn is_stable_sort<A>(
    sorted: Seq<A>,
    given: Seq<A>,
    rank: spec_fn(A) -> int,
) -> bool {
    &&& ascending(sorted, rank)
    &&& forall|k: int| #[trigger] of_rank(sorted, rank, k) == of_rank(given, rank, k)
}

/// A list none of whose elements has rank `k` has no elements of rank `k`.
pub proof fn lemma_of_rank_none<A>(list: Seq<A>, rank: spec_fn(A) -> int, k: int)
    requires
        forall|i: int| 0 <= i < list.len() ==> rank(#[trigger] list[i]) != k,
    ensures
        of_rank(list, rank, k) == Seq::<A>::empty(),
    decreases list.len(),
{
    reveal(Seq::filter);
    if list.len() > 0 {
        lemma_of_rank_none(list.drop_last(), rank, k);
    }
    assert(of_rank(list, rank, k) =~= Seq::<A>::empty());
}

/// The elements of rank `k` of a list cut in two are those of the first part
/// followed by those of the second.
pub proof fn lemma_of_rank_split<A>(list: Seq<A>, rank: spec_fn(A) -> int, k: int, at: int)
    requires
        0 <= at <= list.len(),
    ensures
        of_rank(list, rank, k) == of_rank(list.take(at), rank, k) + of_rank(
            list.skip(at),
            rank,
            k,
        ),
{
    assert(list =~= list.take(at) + list.skip(at));
    Seq::filter_distributes_over_add(list.take(at), list.skip(at), has_rank(rank, k));
}

/// Putting a new first element of the given into a stable sort of the rest,
/// behind all elements of lower rank and before all others, gives a stable
/// sort of the whole.
pub proof fn lemma_stable_insert<A>(
    sorted: Seq<A>,
    rest: Seq<A>,
    rank: spec_fn(A) -> int,
    first: A,
    at: int,
)
    requires
        is_stable_sort(sorted, rest, rank),
        0 <= at <= sorted.len(),
        forall|i: int| 0 <= i < at ==> rank(#[trigger] sorted[i]) < rank(first),
        forall|i: int| at <= i < sorted.len() ==> rank(first) <= rank(#[trigger] sorted[i]),
    ensures
        is_stable_sort(sorted.insert(at, first), seq![first] + rest, rank),
{
    let grown = sorted.insert(at, first);
    assert forall|i: int, j: int| 0 <= i < j < grown.len() implies rank(grown[i]) <= rank(
        grown[j],
    ) by {
        if i < at && j > at {
            assert(grown[i] == sorted[i]);
            assert(grown[j] == sorted[j - 1]);
        } else if i > at {
            assert(grown[i] == sorted[i - 1]);
            assert(grown[j] == sorted[j - 1]);
        }
    }
    assert forall|k: int| #[trigger] of_rank(grown, rank, k) == of_rank(
        seq![first] + rest,
        rank,
        k,
    ) by {
        let test = has_rank(rank, k);
        let low = sorted.take(at);
        let high = sorted.skip(at);
        assert(grown =~= (low + seq![first]) + high);
        Seq::filter_distributes_over_add(low + seq![first], high, test);
        Seq::filter_distributes_over_add(low, seq![first], test);
        Seq::filter_distributes_over_add(seq![first], rest, test);
        lemma_of_rank_split(sorted, rank, k, at);
        assert(of_rank(sorted, rank, k) == of_rank(rest, rank, k));
        if rank(first) == k {
            lemma_of_rank_none(low, rank, k);
            assert(of_rank(grown, rank, k) =~= of_rank(seq![first] + rest, rank, k));
        } else {
            lemma_of_rank_none(seq![first], rank, k);
            assert(of_rank(grown, rank, k) =~= of_rank(seq![first] + rest, rank, k));
        }
    }
}

/// Filtering keeps every occurrence of an element that passes, and none of
/// one that does not.
pub proof fn lemma_filter_count<A>(list: Seq<A>, keep: spec_fn(A) -> bool, element: A)
    ensures
        list.filter(keep).to_multiset().count(element) == if keep(element) {
            list.to_multiset().count(element)
        } else {
            0
        },
    decreases list.len(),
{
    broadcast use vstd::multiset::group_multiset_axioms;

    if list.len() == 0 {
        reveal(Seq::filter);
        list.to_multiset_ensures();
        assert(list.filter(keep) =~= list);
        assert(list.to_multiset().len() == 0);
    } else {
        let front = list.drop_last();
        let last = list.last();
        assert(list =~= front.push(last));
        lemma_filter_count(front, keep, element);
        front.lemma_filter_push(last, keep);
        vstd::seq_lib::to_multiset_build(front, last);
        if keep(last) {
            vstd::seq_lib::to_multiset_build(front.filter(keep), last);
        }
    }
}

/// A stable sort holds each element as often as the given does.
pub proof fn lemma_stable_sort_keeps_elements<A>(
    sorted: Seq<A>,
    given: Seq<A>,
    rank: spec_fn(A) -> int,
)
    requires
        is_stable_sort(sorted, given, rank),
    ensures
        sorted.to_multiset() == given.to_multiset(),
{
    assert forall|element: A|
        sorted.to_multiset().count(element) == given.to_multiset().count(element) by {
        let k = rank(element);
        lemma_filter_count(sorted, has_rank(rank, k), element);
        lemma_filter_count(given, has_rank(rank, k), element);
        assert(of_rank(sorted, rank, k) == of_rank(given, rank, k));
    }
    assert(sorted.to_multiset() =~= given.to_multiset());
}

/// Filtering twice gives the same whichever test is applied first.
pub proof fn lemma_filter_commutes<A>(list: Seq<A>, p: spec_fn(A) -> bool, q: spec_fn(A) -> bool)
    ensures
        list.filter(p).filter(q) == list.filter(q).filter(p),
    decreases list.len(),
{
    if list.len() == 0 {
        reveal(Seq::filter);
        assert(list.filter(p) =~= list);
        assert(list.filter(q) =~= list);
    } else {
        let front = list.drop_last();
        let last = list.last();
        assert(list =~= front.push(last));
        lemma_filter_commutes(front, p, q);
        front.lemma_filter_push(last, p);
        front.lemma_filter_push(last, q);
        front.filter(p).lemma_filter_push(last, q);
        front.filter(q).lemma_filter_push(last, p);
    }
}

/// Filtering an ascending list leaves it ascending.
pub proof fn lemma_filter_ascending<A>(
    list: Seq<A>,
    rank: spec_fn(A) -> int,
    keep: spec_fn(A) -> bool,
)
    requires
        ascending(list, rank),
    ensures
        ascending(list.filter(keep), rank),
    decreases list.len(),
{
    if list.len() == 0 {
        reveal(Seq::filter);
        assert(list.filter(keep) =~= list);
    } else {
        let front = list.drop_last();
        let last = list.last();
        assert(list =~= front.push(last));
        assert(ascending(front, rank)) by {
            assert forall|i: int, j: int| 0 <= i < j < front.len() implies rank(front[i]) <= rank(
                front[j],
            ) by {
                assert(front[i] == list[i] && front[j] == list[j]);
            }
        }
        lemma_filter_ascending(front, rank, keep);
        front.lemma_filter_push(last, keep);
        let kept = front.filter(keep);
        if keep(last) {
            assert forall|i: int, j: int| 0 <= i < j < kept.push(last).len() implies rank(
                kept.push(last)[i],
            ) <= rank(kept.push(last)[j]) by {
                if j == kept.len() {
                    assert(kept.contains(kept[i]));
                    front.lemma_filter_contains_rev(keep, kept[i]);
                    let at = choose|at: int| 0 <= at < front.len() && front[at] == kept[i];
                    assert(list[at] == kept[i]);
                    assert(rank(list[at]) <= rank(list[list.len() - 1]));
                } else {
                    assert(rank(kept[i]) <= rank(kept[j]));
                }
            }
        }
    }
}

/// Filtering commutes with stable sorting: the filtered sort is the stable
/// sort of the filtered given.
pub proof fn lemma_filter_stable_sort<A>(
    sorted: Seq<A>,
    given: Seq<A>,
    rank: spec_fn(A) -> int,
    keep: spec_fn(A) -> bool,
)
    requires
        is_stable_sort(sorted, given, rank),
    ensures
        is_stable_sort(sorted.filter(keep), given.filter(keep), rank),
{
    lemma_filter_ascending(sorted, rank, keep);
    assert forall|k: int| #[trigger]
        of_rank(sorted.filter(keep), rank, k) == of_rank(given.filter(keep), rank, k) by {
        lemma_filter_commutes(sorted, keep, has_rank(rank, k));
        lemma_filter_commutes(given, keep, has_rank(rank, k));
        assert(of_rank(sorted, rank, k) == of_rank(given, rank, k));
    }
}

/// Two ascending lists that agree on the elements of every rank are equal.
pub proof fn lemma_ascending_lists_equal<A>(a: Seq<A>, b: Seq<A>, rank: spec_fn(A) -> int)
    requires
        ascending(a, rank),
        ascending(b, rank),
        forall|k: int| #[trigger] of_rank(a, rank, k) == of_rank(b, rank, k),
    ensures
        a == b,
    decreases a.len(),
{
    if a.len() == 0 {
        if b.len() > 0 {
            let k = rank(b[0]);
            assert(has_rank(rank, k)(b[0]));
            b.lemma_filter_contains(has_rank(rank, k), 0);
            reveal(Seq::filter);
            assert(of_rank(a, rank, k) =~= a);
            assert(of_rank(b, rank, k).len() > 0);
            assert(of_rank(a, rank, k) == of_rank(b, rank, k));
        }
        assert(a =~= b);
    } else {
        let top = rank(a.last());
        let a_front = a.drop_last();
        assert(a =~= a_front.push(a.last()));
        assert(has_rank(rank, top)(a.last()));
        a_front.lemma_filter_push(a.last(), has_rank(rank, top));
        assert(of_rank(a, rank, top) == of_rank(a_front, rank, top).push(a.last()));
        assert(of_rank(a, rank, top) == of_rank(b, rank, top));
        if b.len() == 0 {
            reveal(Seq::filter);
            assert(of_rank(b, rank, top) =~= b);
        }
        let b_top = rank(b.last());
        let b_front = b.drop_last();
        assert(b =~= b_front.push(b.last()));
        assert(has_rank(rank, b_top)(b.last()));
        b_front.lemma_filter_push(b.last(), has_rank(rank, b_top));
        assert(of_rank(b, rank, b_top) == of_rank(b_front, rank, b_top).push(b.last()));
        assert(of_rank(a, rank, b_top) == of_rank(b, rank, b_top));
        assert(top <= b_top) by {
            let witness = of_rank(b, rank, top);
            let e = witness[0];
            b.lemma_filter_pred(has_rank(rank, top), 0);
            assert(witness.contains(e));
            b.lemma_filter_contains_rev(has_rank(rank, top), e);
            let at = choose|at: int| 0 <= at < b.len() && b[at] == e;
            assert(rank(b[at]) <= rank(b[b.len() - 1]));
        }
        assert(b_top <= top) by {
            let witness = of_rank(a, rank, b_top);
            let e = witness[0];
            a.lemma_filter_pred(has_rank(rank, b_top), 0);
            assert(witness.contains(e));
            a.lemma_filter_contains_rev(has_rank(rank, b_top), e);
            let at = choose|at: int| 0 <= at < a.len() && a[at] == e;
            assert(rank(a[at]) <= rank(a[a.len() - 1]));
        }
        assert(a.last() == of_rank(a, rank, top).last());
        assert(b.last() == of_rank(b, rank, top).last());
        assert(ascending(a_front, rank)) by {
            assert forall|i: int, j: int| 0 <= i < j < a_front.len() implies rank(a_front[i])
                <= rank(a_front[j]) by {
                assert(a_front[i] == a[i] && a_front[j] == a[j]);
            }
        }
        assert(ascending(b_front, rank)) by {
            assert forall|i: int, j: int| 0 <= i < j < b_front.len() implies rank(b_front[i])
                <= rank(b_front[j]) by {
                assert(b_front[i] == b[i] && b_front[j] == b[j]);
            }
        }
        assert forall|k: int| #[trigger]
            of_rank(a_front, rank, k) == of_rank(b_front, rank, k) by {
            a_front.lemma_filter_push(a.last(), has_rank(rank, k));
            b_front.lemma_filter_push(b.last(), has_rank(rank, k));
            assert(of_rank(a, rank, k) == of_rank(b, rank, k));
            if k == top {
                assert(of_rank(a_front, rank, k) =~= of_rank(a, rank, k).drop_last());
                assert(of_rank(b_front, rank, k) =~= of_rank(b, rank, k).drop_last());
            }
        }
        lemma_ascending_lists_equal(a_front, b_front, rank);
    }
}

/// A list has one stable sort by a rank, and no other.
pub proof fn lemma_stable_sort_unique<A>(
    one: Seq<A>,
    other: Seq<A>,
    given: Seq<A>,
    rank: spec_fn(A) -> int,
)
    requires
        is_stable_sort(one, given, rank),
        is_stable_sort(other, given, rank),
    ensures
        one == other,
{
    assert forall|k: int| #[trigger] of_rank(one, rank, k) == of_rank(other, rank, k) by {
        assert(of_rank(one, rank, k) == of_rank(given, rank, k));
        assert(of_rank(other, rank, k) == of_rank(given, rank, k));
    }
    lemma_ascending_lists_equal(one, other, rank);
}

/// An element of the joined list is an element of one of the lists.
pub proof fn lemma_flatten_element<A>(lists: Seq<Seq<A>>, element: A) -> (at: (int, int))
    requires
        lists.flatten().contains(element),
    ensures
        0 <= at.0 < lists.len(),
        0 <= at.1 < lists[at.0].len(),
        lists[at.0][at.1] == element,
    decreases lists.len(),
{
    if lists.len() == 0 {
        assert(false);
        (0, 0)
    } else {
        let front = lists.drop_last();
        let last = lists.last();
        assert(lists =~= front.push(last));
        front.lemma_flatten_push(last);
        let found = choose|found: int|
            0 <= found < lists.flatten().len() && lists.flatten()[found] == element;
        if found < front.flatten().len() {
            assert(front.flatten()[found] == element);
            assert(front.flatten().contains(element));
            lemma_flatten_element(front, element)
        } else {
            (lists.len() - 1, found - front.flatten().len())
        }
    }
}

/// Applying a function to every element gives the same results, each as
/// often, in whatever order the elements are taken.
pub proof fn lemma_map_any_order<A, B>(one: Seq<A>, other: Seq<A>, f: spec_fn(A) -> B)
    requires
        one.to_multiset() == other.to_multiset(),
    ensures
        one.map_values(f).to_multiset() == other.map_values(f).to_multiset(),
    decreases one.len(),
{
    broadcast use vstd::multiset::group_multiset_axioms;

    vstd::seq_lib::to_multiset_len(one);
    vstd::seq_lib::to_multiset_len(other);
    if one.len() == 0 {
        assert(one.map_values(f) =~= other.map_values(f));
    } else {
        let last = one.last();
        let front = one.drop_last();
        assert(one =~= front.push(last));
        vstd::seq_lib::to_multiset_build(front, last);
        vstd::seq_lib::to_multiset_contains(one, last);
        vstd::seq_lib::to_multiset_contains(other, last);
        assert(one.contains(last));
        let at = choose|at: int| 0 <= at < other.len() && other[at] == last;
        let others = other.remove(at);
        vstd::seq_lib::to_multiset_remove(other, at);
        assert(front.to_multiset() =~= one.to_multiset().remove(last));
        lemma_map_any_order(front, others, f);
        assert(one.map_values(f) =~= front.map_values(f).push(f(last)));
        vstd::seq_lib::to_multiset_build(front.map_values(f), f(last));
        assert(others.map_values(f) =~= other.map_values(f).remove(at));
        vstd::seq_lib::to_multiset_remove(other.map_values(f), at);
        assert(other.map_values(f)[at] == f(last));
        vstd::seq_lib::to_multiset_contains(other.map_values(f), f(last));
        assert(other.map_values(f).contains(f(last)));
        assert(one.map_values(f).to_multiset() =~= other.map_values(f).to_multiset());
    }
}

/// Joining lists gives the same elements, each as often, in whatever order
/// the lists are taken.
pub proof fn lemma_flatten_any_order<A>(one: Seq<Seq<A>>, other: Seq<Seq<A>>)
    requires
        one.to_multiset() == other.to_multiset(),
    ensures
        one.flatten().to_multiset() == other.flatten().to_multiset(),
    decreases one.len(),
{
    broadcast use vstd::multiset::group_multiset_axioms;

    vstd::seq_lib::to_multiset_len(one);
    vstd::seq_lib::to_multiset_len(other);
    if one.len() == 0 {
        assert(one.flatten() =~= other.flatten());
    } else {
        let last = one.last();
        let front = one.drop_last();
        assert(one =~= front.push(last));
        vstd::seq_lib::to_multiset_build(front, last);
        vstd::seq_lib::to_multiset_contains(one, last);
        vstd::seq_lib::to_multiset_contains(other, last);
        assert(one.contains(last));
        let at = choose|at: int| 0 <= at < other.len() && other[at] == last;
        let others = other.remove(at);
        vstd::seq_lib::to_multiset_remove(other, at);
        assert(front.to_multiset() =~= one.to_multiset().remove(last));
        lemma_flatten_any_order(front, others);
        front.lemma_flatten_push(last);
        let before = other.take(at);
        let after = other.skip(at + 1);
        assert(other =~= before.push(last) + after);
        assert(others =~= before + after);
        vstd::seq_lib::lemma_flatten_concat(before.push(last), after);
        vstd::seq_lib::lemma_flatten_concat(before, after);
        before.lemma_flatten_push(last);
        vstd::seq_lib::lemma_multiset_commutative(front.flatten(), last);
        vstd::seq_lib::lemma_multiset_commutative(before.flatten() + last, after.flatten());
        vstd::seq_lib::lemma_multiset_commutative(before.flatten(), last);
        vstd::seq_lib::lemma_multiset_commutative(before.flatten(), after.flatten());
        assert(one.flatten().to_multiset() =~= other.flatten().to_multiset());
    }
}

} // verus!
