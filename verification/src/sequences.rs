//! Facts about the part of a sequence that passes a test.

use vstd::prelude::*;
use vstd::seq_lib::{lemma_multiset_commutative, to_multiset_build};

verus! {

/// Where every item passes the test, the part that passes is the whole.
pub proof fn lemma_filter_all<A>(s: Seq<A>, test: spec_fn(A) -> bool)
    requires
        forall|i: int| 0 <= i < s.len() ==> test(#[trigger] s[i]),
    ensures
        s.filter(test) == s,
    decreases s.len(),
{
    reveal(Seq::filter);
    if s.len() > 0 {
        lemma_filter_all(s.drop_last(), test);
    }
}

/// Where no item passes the test, the part that passes is empty.
pub proof fn lemma_filter_none<A>(s: Seq<A>, test: spec_fn(A) -> bool)
    requires
        forall|i: int| 0 <= i < s.len() ==> !test(#[trigger] s[i]),
    ensures
        s.filter(test) == Seq::<A>::empty(),
    decreases s.len(),
{
    reveal(Seq::filter);
    if s.len() > 0 {
        lemma_filter_none(s.drop_last(), test);
    }
}

/// Where two tests never pass the same item, the items that pass one or the
/// other are those that pass the first together with those that pass the
/// second, each as often.
pub proof fn lemma_filter_split<A>(
    s: Seq<A>,
    first: spec_fn(A) -> bool,
    second: spec_fn(A) -> bool,
    either: spec_fn(A) -> bool,
)
    requires
        forall|a: A| #[trigger] either(a) == (first(a) || second(a)),
        forall|a: A| !(#[trigger] first(a) && second(a)),
    ensures
        s.filter(either).to_multiset() == s.filter(first).to_multiset().add(
            s.filter(second).to_multiset(),
        ),
    decreases s.len(),
{
    reveal(Seq::filter);
    if s.len() == 0 {
        lemma_multiset_commutative(s, s);
    } else {
        let rest = s.drop_last();
        let last = s.last();
        lemma_filter_split(rest, first, second, either);
        to_multiset_build(rest.filter(either), last);
        to_multiset_build(rest.filter(first), last);
        to_multiset_build(rest.filter(second), last);
    }
}

/// The positions of the items of `s` that pass the test, ascending.
pub open spec fn positions<A>(s: Seq<A>, test: spec_fn(A) -> bool) -> Seq<int>
    decreases s.len(),
{
    if s.len() == 0 {
        Seq::empty()
    } else if test(s.last()) {
        positions(s.drop_last(), test).push(s.len() - 1)
    } else {
        positions(s.drop_last(), test)
    }
}

/// The part of a sequence that passes a test holds the passing items in the
/// order in which they stand in the sequence: item by item it is the
/// sequence at the passing positions, and these ascend.
pub proof fn lemma_filter_keeps_order<A>(s: Seq<A>, test: spec_fn(A) -> bool)
    ensures
        positions(s, test).len() == s.filter(test).len(),
        forall|k: int|
            0 <= k < positions(s, test).len() ==> 0 <= #[trigger] positions(s, test)[k] < s.len(),
        forall|k: int|
            0 <= k < positions(s, test).len() ==> #[trigger] s.filter(test)[k] == s[positions(
                s,
                test,
            )[k]],
        forall|j: int, k: int|
            0 <= j < k < positions(s, test).len() ==> #[trigger] positions(s, test)[j]
                < #[trigger] positions(s, test)[k],
    decreases s.len(),
{
    reveal(Seq::filter);
    if s.len() > 0 {
        lemma_filter_keeps_order(s.drop_last(), test);
    }
}

/// The items of one sequence after another are those of the first together
/// with those of the second, each as often.
pub proof fn lemma_concat_counts<A>(a: Seq<A>, b: Seq<A>)
    ensures
        (a + b).to_multiset() == a.to_multiset().add(b.to_multiset()),
{
    lemma_multiset_commutative(a, b);
}

} // verus!
