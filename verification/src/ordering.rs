//! Stable sorting.
use vstd::prelude::*;

verus! {

/// `s` with `x` put behind every element that it does not precede, counted from
/// the back.
pub open spec fn insert_ordered<T>(s: Seq<T>, x: T, precedes: spec_fn(T, T) -> bool) -> Seq<T>
    decreases s.len(),
{
    if s.len() == 0 || !precedes(x, s.last()) {
        s.push(x)
    } else {
        insert_ordered(s.drop_last(), x, precedes).push(s.last())
    }
}

/// The elements of `s` in order, those that do not precede each other as they
/// stood.
pub open spec fn stable_sort<T>(s: Seq<T>, precedes: spec_fn(T, T) -> bool) -> Seq<T>
    decreases s.len(),
{
    if s.len() == 0 {
        s
    } else {
        insert_ordered(stable_sort(s.drop_last(), precedes), s.last(), precedes)
    }
}

/// No element of `s` precedes an earlier one.
pub open spec fn in_order<T>(s: Seq<T>, precedes: spec_fn(T, T) -> bool) -> bool {
    forall|i: int, j: int| 0 <= i < j < s.len() ==> !precedes(#[trigger] s[j], #[trigger] s[i])
}

/// `precedes` ranks elements: not both ways round, and elements of equal rank
/// are interchangeable.
pub open spec fn ranks<T>(precedes: spec_fn(T, T) -> bool) -> bool {
    &&& forall|a: T, b: T| #[trigger] precedes(a, b) ==> !precedes(b, a)
    &&& forall|a: T, b: T, c: T|
        !#[trigger] precedes(b, a) && !#[trigger] precedes(c, b) ==> !precedes(c, a)
}

/// Where [`insert_ordered`] puts an element.
pub proof fn lemma_insert_position<T>(
    s: Seq<T>,
    x: T,
    precedes: spec_fn(T, T) -> bool,
    at: int,
)
    requires
        0 <= at <= s.len(),
        forall|k: int| at <= k < s.len() ==> precedes(x, #[trigger] s[k]),
        at > 0 ==> !precedes(x, s[at - 1]),
    ensures
        insert_ordered(s, x, precedes) == s.insert(at, x),
    decreases s.len(),
{
    if at == s.len() {
        assert(s.insert(at, x) =~= s.push(x));
    } else {
        assert(precedes(x, s[s.len() - 1]));
        lemma_insert_position(s.drop_last(), x, precedes, at);
        assert(s.insert(at, x) =~= s.drop_last().insert(at, x).push(s.last()));
    }
}

proof fn lemma_insert_ordered<T>(s: Seq<T>, x: T, precedes: spec_fn(T, T) -> bool)
    requires
        ranks(precedes),
        in_order(s, precedes),
    ensures
        in_order(insert_ordered(s, x, precedes), precedes),
        insert_ordered(s, x, precedes).to_multiset() == s.to_multiset().insert(x),
        insert_ordered(s, x, precedes).len() == s.len() + 1,
        forall|y: T| #[trigger]
            insert_ordered(s, x, precedes).contains(y) ==> y == x || s.contains(y),
    decreases s.len(),
{
    let out = insert_ordered(s, x, precedes);
    if s.len() == 0 || !precedes(x, s.last()) {
        vstd::seq_lib::to_multiset_build(s, x);
        assert forall|i: int, j: int| 0 <= i < j < out.len() implies !precedes(
            #[trigger] out[j],
            #[trigger] out[i],
        ) by {
            if j == s.len() && i < s.len() - 1 {
                assert(!precedes(s[s.len() - 1], s[i]));
                assert(!precedes(x, s.last()));
            }
        }
        assert forall|y: T| #[trigger] out.contains(y) implies y == x || s.contains(y) by {
            let k = choose|k: int| 0 <= k < out.len() && out[k] == y;
            if k < s.len() {
                assert(s[k] == y);
            }
        }
    } else {
        let inner = insert_ordered(s.drop_last(), x, precedes);
        lemma_insert_ordered(s.drop_last(), x, precedes);
        vstd::seq_lib::to_multiset_build(inner, s.last());
        vstd::seq_lib::to_multiset_build(s.drop_last(), s.last());
        assert(s.drop_last().push(s.last()) =~= s);
        assert(s.drop_last().to_multiset().insert(x).insert(s.last())
            =~= s.drop_last().to_multiset().insert(s.last()).insert(x));
        assert forall|i: int, j: int| 0 <= i < j < out.len() implies !precedes(
            #[trigger] out[j],
            #[trigger] out[i],
        ) by {
            if j == inner.len() {
                assert(inner.contains(inner[i]));
                if inner[i] != x {
                    let k = choose|k: int|
                        0 <= k < s.drop_last().len() && s.drop_last()[k] == inner[i];
                    assert(!precedes(s[s.len() - 1], s[k]));
                }
            } else {
                assert(out[j] == inner[j] && out[i] == inner[i]);
            }
        }
        assert forall|y: T| #[trigger] out.contains(y) implies y == x || s.contains(y) by {
            let k = choose|k: int| 0 <= k < out.len() && out[k] == y;
            if k < inner.len() {
                assert(inner.contains(y));
                if y != x {
                    let m = choose|m: int| 0 <= m < s.drop_last().len() && s.drop_last()[m] == y;
                    assert(s[m] == y);
                }
            } else {
                assert(s[s.len() - 1] == y);
            }
        }
    }
}

/// A stable sort puts the elements in order and neither loses nor adds one.
pub proof fn lemma_stable_sort<T>(s: Seq<T>, precedes: spec_fn(T, T) -> bool)
    requires
        ranks(precedes),
    ensures
        in_order(stable_sort(s, precedes), precedes),
        stable_sort(s, precedes).to_multiset() == s.to_multiset(),
        stable_sort(s, precedes).len() == s.len(),
    decreases s.len(),
{
    if s.len() > 0 {
        lemma_stable_sort(s.drop_last(), precedes);
        lemma_insert_ordered(stable_sort(s.drop_last(), precedes), s.last(), precedes);
        vstd::seq_lib::to_multiset_build(s.drop_last(), s.last());
        assert(s.drop_last().push(s.last()) =~= s);
    }
}

} // verus!
