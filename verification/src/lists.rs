//! Lists read as sets: membership, first occurrences, and what a reordering
//! or a choice of positions keeps.

use crate::cards::{Expansion, KC};
use vstd::multiset::Multiset;
use vstd::prelude::*;
use vstd::seq_lib::{seq_to_set_is_finite, to_multiset_contains, to_multiset_len};
use vstd::set_lib::{lemma_len_subset, lemma_len_union};

verus! {

/// The first occurrence of each item of `s`, in the order of `s`.
pub open spec fn distinct<T>(s: Seq<T>) -> Seq<T>
    decreases s.len(),
{
    if s.len() == 0 {
        Seq::empty()
    } else {
        let front = distinct(s.drop_last());
        if front.contains(s.last()) {
            front
        } else {
            front.push(s.last())
        }
    }
}

/// `distinct(s)` holds the items of `s` and no others, each once.
pub proof fn lemma_distinct<T>(s: Seq<T>)
    ensures
        distinct(s).no_duplicates(),
        distinct(s).len() <= s.len(),
        forall|x: T| distinct(s).contains(x) <==> s.contains(x),
        s.no_duplicates() ==> distinct(s) == s,
    decreases s.len(),
{
    if s.len() > 0 {
        let front = s.drop_last();
        let last = s.last();
        let kept = distinct(front);
        lemma_distinct(front);
        assert(front.len() == s.len() - 1);
        assert(forall|i: int| 0 <= i < front.len() ==> front[i] == s[i]);
        assert forall|x: T| distinct(s).contains(x) <==> s.contains(x) by {
            if s.contains(x) {
                let i = choose|i: int| 0 <= i < s.len() && s[i] == x;
                if i < s.len() - 1 {
                    assert(front[i] == x);
                    assert(front.contains(x));
                    let j = choose|j: int| 0 <= j < kept.len() && kept[j] == x;
                    assert(distinct(s)[j] == x);
                } else if kept.contains(last) {
                    assert(distinct(s).contains(x));
                } else {
                    assert(distinct(s)[kept.len() as int] == x);
                }
            }
            if distinct(s).contains(x) {
                let j = choose|j: int| 0 <= j < distinct(s).len() && distinct(s)[j] == x;
                if j < kept.len() {
                    assert(kept[j] == x);
                    assert(kept.contains(x));
                    assert(front.contains(x));
                    let i = choose|i: int| 0 <= i < front.len() && front[i] == x;
                    assert(s[i] == x);
                } else {
                    assert(s[s.len() - 1] == x);
                }
            }
        }
        if s.no_duplicates() {
            assert(front.no_duplicates());
            if front.contains(last) {
                let i = choose|i: int| 0 <= i < front.len() && front[i] == last;
                assert(s[i] == s[s.len() - 1]);
            }
            assert(distinct(s) =~= s);
        }
    }
}

/// Filtering a list without repetition keeps exactly the items that pass,
/// each once.
pub proof fn lemma_filter_distinct<T>(s: Seq<T>, pred: spec_fn(T) -> bool)
    ensures
        forall|x: T| s.filter(pred).contains(x) <==> s.contains(x) && pred(x),
        s.no_duplicates() ==> s.filter(pred).no_duplicates(),
    decreases s.len(),
{
    if s.len() == 0 {
        assert(s.filter(pred) =~= Seq::<T>::empty()) by {
            reveal(Seq::filter);
        }
    } else {
        let front = s.drop_last();
        let last = s.last();
        let kept = front.filter(pred);
        lemma_filter_distinct(front, pred);
        assert(s =~= front.push(last));
        front.lemma_filter_push(last, pred);
        assert(forall|i: int| 0 <= i < front.len() ==> front[i] == s[i]);
        assert forall|x: T| s.filter(pred).contains(x) <==> s.contains(x) && pred(x) by {
            if s.filter(pred).contains(x) {
                let j = choose|j: int| 0 <= j < s.filter(pred).len() && s.filter(pred)[j] == x;
                if j < kept.len() {
                    assert(kept[j] == x);
                    assert(kept.contains(x));
                    assert(front.contains(x) && pred(x));
                    let i = choose|i: int| 0 <= i < front.len() && front[i] == x;
                    assert(s[i] == x);
                } else {
                    assert(pred(last));
                    assert(s[s.len() - 1] == x);
                }
            }
            if s.contains(x) && pred(x) {
                let i = choose|i: int| 0 <= i < s.len() && s[i] == x;
                if i < s.len() - 1 {
                    assert(front[i] == x);
                    assert(front.contains(x));
                    let j = choose|j: int| 0 <= j < kept.len() && kept[j] == x;
                    assert(s.filter(pred)[j] == x);
                } else {
                    assert(s.filter(pred)[kept.len() as int] == x);
                }
            }
        }
        if s.no_duplicates() {
            assert(front.no_duplicates());
            if kept.contains(last) {
                assert(front.contains(last));
                let i = choose|i: int| 0 <= i < front.len() && front[i] == last;
                assert(s[i] == s[s.len() - 1]);
            }
            let out = s.filter(pred);
            assert forall|i: int, j: int| 0 <= i < out.len() && 0 <= j < out.len() && i != j implies out[i]
                != out[j] by {
                if i < kept.len() {
                    assert(kept.contains(kept[i]));
                }
                if j < kept.len() {
                    assert(kept.contains(kept[j]));
                }
            }
        }
    }
}

/// A reordering of a list without repetition has none either, and holds the
/// same items.
pub proof fn lemma_rearranged<T>(before: Seq<T>, after: Seq<T>)
    requires
        after.to_multiset() == before.to_multiset(),
    ensures
        after.len() == before.len(),
        forall|x: T| after.contains(x) <==> before.contains(x),
        before.no_duplicates() ==> after.no_duplicates(),
{
    to_multiset_len(before);
    to_multiset_len(after);
    assert forall|x: T| after.contains(x) <==> before.contains(x) by {
        to_multiset_contains(before, x);
        to_multiset_contains(after, x);
    }
    if before.no_duplicates() {
        before.lemma_multiset_has_no_duplicates();
        after.lemma_multiset_has_no_duplicates_conv();
    }
}

/// Items picked at positions of a list, no position twice, are items of the
/// list; where the list repeats none, neither do the picked.
pub proof fn lemma_picked<T>(picked: Seq<T>, from: Seq<T>)
    requires
        picked.to_multiset().subset_of(from.to_multiset()),
    ensures
        picked.len() <= from.len(),
        forall|x: T| picked.contains(x) ==> from.contains(x),
        from.no_duplicates() ==> picked.no_duplicates(),
{
    to_multiset_len(from);
    to_multiset_len(picked);
    lemma_sub_multiset_len(picked.to_multiset(), from.to_multiset());
    assert forall|x: T| picked.contains(x) implies from.contains(x) by {
        to_multiset_contains(from, x);
        to_multiset_contains(picked, x);
    }
    if from.no_duplicates() {
        from.lemma_multiset_has_no_duplicates();
        assert forall|x: T| picked.to_multiset().contains(x) implies picked.to_multiset().count(x)
            == 1 by {
            assert(picked.to_multiset().count(x) <= from.to_multiset().count(x));
        }
        picked.lemma_multiset_has_no_duplicates_conv();
    }
}

/// A part of a multiset is no larger than the whole.
pub proof fn lemma_sub_multiset_len<T>(part: Multiset<T>, whole: Multiset<T>)
    requires
        part.subset_of(whole),
    ensures
        part.len() <= whole.len(),
{
    let rest = whole.sub(part);
    assert(part.add(rest) =~= whole);
}

/// A list that holds every item of a list without repetition is at least as
/// long.
pub proof fn lemma_holds_as_many<T>(list: Seq<T>, items: Seq<T>)
    requires
        items.no_duplicates(),
        forall|i: int| 0 <= i < items.len() ==> list.contains(#[trigger] items[i]),
    ensures
        items.len() <= list.len(),
{
    lemma_shared_out(items, list, Seq::empty(), Seq::empty());
}

/// Items without repetition, each held by one of three lists, are no more
/// than the three lists hold together.
pub proof fn lemma_shared_out<T>(items: Seq<T>, first: Seq<T>, second: Seq<T>, third: Seq<T>)
    requires
        items.no_duplicates(),
        forall|i: int|
            0 <= i < items.len() ==> first.contains(#[trigger] items[i]) || second.contains(items[i])
                || third.contains(items[i]),
    ensures
        items.len() <= first.len() + second.len() + third.len(),
{
    let two = first.to_set().union(second.to_set());
    let all = two.union(third.to_set());
    seq_to_set_is_finite(items);
    seq_to_set_is_finite(first);
    seq_to_set_is_finite(second);
    seq_to_set_is_finite(third);
    items.unique_seq_to_set();
    first.lemma_cardinality_of_set();
    second.lemma_cardinality_of_set();
    third.lemma_cardinality_of_set();
    lemma_len_union(first.to_set(), second.to_set());
    assert(two.finite());
    lemma_len_union(two, third.to_set());
    assert(all.finite());
    assert(items.to_set().subset_of(all)) by {
        assert forall|x: T| items.to_set().contains(x) implies all.contains(x) by {
            let i = choose|i: int| 0 <= i < items.len() && items[i] == x;
            assert(first.contains(items[i]) || second.contains(items[i]) || third.contains(items[i]));
        }
    }
    lemma_len_subset(items.to_set(), all);
}

/// Does the list hold the card?
pub fn has_card(list: &Vec<KC>, card: KC) -> (found: bool)
    ensures
        found == list@.contains(card),
{
    let mut i: usize = 0;
    while i < list.len()
        invariant
            i <= list.len(),
            forall|j: int| 0 <= j < i ==> list@[j] != card,
        decreases list.len() - i,
    {
        if list[i] == card {
            return true;
        }
        i = i + 1;
    }
    false
}

/// Does the list hold the expansion?
pub fn has_expansion(list: &Vec<Expansion>, expansion: Expansion) -> (found: bool)
    ensures
        found == list@.contains(expansion),
{
    let mut i: usize = 0;
    while i < list.len()
        invariant
            i <= list.len(),
            forall|j: int| 0 <= j < i ==> list@[j] != expansion,
        decreases list.len() - i,
    {
        if list[i] == expansion {
            return true;
        }
        i = i + 1;
    }
    false
}

/// The cards of the list without repetition, each where it first stands.
pub fn distinct_cards(list: &Vec<KC>) -> (out: Vec<KC>)
    ensures
        out@ == distinct(list@),
{
    let mut out: Vec<KC> = Vec::new();
    let mut i: usize = 0;
    while i < list.len()
        invariant
            i <= list.len(),
            out@ == distinct(list@.take(i as int)),
        decreases list.len() - i,
    {
        let card = list[i];
        let seen = has_card(&out, card);
        proof {
            let next = list@.take(i + 1);
            assert(next.drop_last() =~= list@.take(i as int));
            assert(next.last() == card);
        }
        if !seen {
            out.push(card);
        }
        i = i + 1;
    }
    assert(list@.take(list.len() as int) =~= list@);
    out
}

/// The expansions of the list without repetition, each where it first stands.
pub fn distinct_expansions(list: &Vec<Expansion>) -> (out: Vec<Expansion>)
    ensures
        out@ == distinct(list@),
{
    let mut out: Vec<Expansion> = Vec::new();
    let mut i: usize = 0;
    while i < list.len()
        invariant
            i <= list.len(),
            out@ == distinct(list@.take(i as int)),
        decreases list.len() - i,
    {
        let expansion = list[i];
        let seen = has_expansion(&out, expansion);
        proof {
            let next = list@.take(i + 1);
            assert(next.drop_last() =~= list@.take(i as int));
            assert(next.last() == expansion);
        }
        if !seen {
            out.push(expansion);
        }
        i = i + 1;
    }
    assert(list@.take(list.len() as int) =~= list@);
    out
}

} // verus!
