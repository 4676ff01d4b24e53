//! Facts about sequences that the proofs about circles rest on.
use crate::model::paid_count;
use vstd::prelude::*;

verus! {

/// A sequence without repetitions whose items all occur in another sequence
/// is no longer than that one.
pub proof fn lemma_distinct_within<A>(inner: Seq<A>, outer: Seq<A>)
    requires
        inner.no_duplicates(),
        forall|k: int| 0 <= k < inner.len() ==> outer.contains(#[trigger] inner[k]),
    ensures
        inner.len() <= outer.len(),
{
    inner.unique_seq_to_set();
    outer.lemma_cardinality_of_set();
    assert(inner.to_set().subset_of(outer.to_set())) by {
        assert forall|a: A| inner.to_set().contains(a) implies outer.to_set().contains(a) by {
            let k = choose|k: int| 0 <= k < inner.len() && inner[k] == a;
            assert(outer.contains(inner[k]));
        }
    }
    vstd::set_lib::lemma_len_subset(inner.to_set(), outer.to_set());
}

/// In a sequence without repetitions an item is found at one position only.
pub proof fn lemma_position_unique<A>(s: Seq<A>, i: int)
    requires
        s.no_duplicates(),
        0 <= i < s.len(),
    ensures
        s.contains(s[i]),
        s.index_of(s[i]) == i,
{
    let j = s.index_of(s[i]);
    assert(s[j] == s[i]);
}

/// No more members are paid than there are.
pub proof fn lemma_paid_count_bounded(flags: Seq<bool>)
    ensures
        paid_count(flags) <= flags.len(),
    decreases flags.len(),
{
    if flags.len() > 0 {
        lemma_paid_count_bounded(flags.drop_last());
    }
}

/// A new member, unpaid or paid, adds that to the count.
pub proof fn lemma_paid_count_push(flags: Seq<bool>, flag: bool)
    ensures
        paid_count(flags.push(flag)) == paid_count(flags) + if flag {
            1nat
        } else {
            0nat
        },
{
    assert(flags.push(flag).drop_last() =~= flags);
}

/// Paying a member who was not paid raises the count by one, so not every
/// member was paid before.
pub proof fn lemma_paid_count_mark(flags: Seq<bool>, i: int)
    requires
        0 <= i < flags.len(),
        !flags[i],
    ensures
        paid_count(flags.update(i, true)) == paid_count(flags) + 1,
        paid_count(flags) < flags.len(),
    decreases flags.len(),
{
    let marked = flags.update(i, true);
    if i == flags.len() - 1 {
        assert(marked.drop_last() =~= flags.drop_last());
        lemma_paid_count_bounded(flags.drop_last());
    } else {
        assert(marked.drop_last() =~= flags.drop_last().update(i, true));
        lemma_paid_count_mark(flags.drop_last(), i);
    }
}

/// Two sequences without repetitions, of one length, where every item of the
/// first occurs in the second, hold the same items.
pub proof fn lemma_arrangement<A>(a: Seq<A>, b: Seq<A>)
    requires
        a.no_duplicates(),
        b.no_duplicates(),
        a.len() == b.len(),
        forall|k: int| 0 <= k < a.len() ==> b.contains(#[trigger] a[k]),
    ensures
        a.to_multiset() =~= b.to_multiset(),
{
    a.unique_seq_to_set();
    b.unique_seq_to_set();
    assert(a.to_set().subset_of(b.to_set())) by {
        assert forall|x: A| a.to_set().contains(x) implies b.to_set().contains(x) by {
            let k = choose|k: int| 0 <= k < a.len() && a[k] == x;
            assert(b.contains(a[k]));
        }
    }
    vstd::set_lib::lemma_subset_equality(a.to_set(), b.to_set());
    a.lemma_multiset_has_no_duplicates();
    b.lemma_multiset_has_no_duplicates();
    assert forall|x: A| a.to_multiset().count(x) == b.to_multiset().count(x) by {
        vstd::seq_lib::to_multiset_contains(a, x);
        vstd::seq_lib::to_multiset_contains(b, x);
        assert(b.contains(x) <==> b.to_set().contains(x));
    }
}

/// A sequence that holds the same items as one without repetitions has no
/// repetitions either, has its length, and every item of it occurs there.
pub proof fn lemma_arrangement_of_distinct<A>(a: Seq<A>, b: Seq<A>)
    requires
        b.no_duplicates(),
        a.to_multiset() =~= b.to_multiset(),
    ensures
        a.no_duplicates(),
        a.len() == b.len(),
        forall|k: int| 0 <= k < a.len() ==> b.contains(#[trigger] a[k]),
{
    b.lemma_multiset_has_no_duplicates();
    a.lemma_multiset_has_no_duplicates_conv();
    vstd::seq_lib::to_multiset_len(a);
    vstd::seq_lib::to_multiset_len(b);
    assert forall|k: int| 0 <= k < a.len() implies b.contains(#[trigger] a[k]) by {
        vstd::seq_lib::to_multiset_contains(a, a[k]);
        vstd::seq_lib::to_multiset_contains(b, a[k]);
    }
}

} // verus!
