//! Values that have a rank among their kind and a label: what can be put in
//! order, counted and printed.

use crate::cards::{CardType, Expansion, Project, KC};
use crate::text::{decimal, push_decimal};
use vstd::prelude::*;

verus! {

/// A value with a place in the order of its kind, and a label to print.
pub trait Ranked: Copy {
    /// The place of the value in the order of its kind.
    spec fn rank(self) -> nat;

    /// The label of the value.
    spec fn label_text(self) -> Seq<char>;

    /// Values differ in rank.
    proof fn lemma_rank_tells_apart(self, other: Self)
        requires
            self.rank() == other.rank(),
        ensures
            self == other,
    ;

    /// The place of the value in the order of its kind.
    fn place(&self) -> (at: usize)
        ensures
            at == self.rank(),
    ;

    /// The label of the value.
    fn label(&self) -> (label: String)
        ensures
            label@ == self.label_text(),
    ;
}

impl Ranked for u8 {
    open spec fn rank(self) -> nat {
        self as nat
    }

    open spec fn label_text(self) -> Seq<char> {
        decimal(self as nat)
    }

    proof fn lemma_rank_tells_apart(self, other: Self) {
    }

    fn place(&self) -> (at: usize) {
        *self as usize
    }

    fn label(&self) -> (label: String) {
        let mut label = String::new();
        push_decimal(&mut label, *self as u64);
        label
    }
}

impl Ranked for CardType {
    open spec fn rank(self) -> nat {
        self.ordinal()
    }

    open spec fn label_text(self) -> Seq<char> {
        self.name_text()
    }

    proof fn lemma_rank_tells_apart(self, other: Self) {
        self.lemma_catalog_complete();
        other.lemma_catalog_complete();
    }

    fn place(&self) -> (at: usize) {
        self.position()
    }

    fn label(&self) -> (label: String) {
        self.name().to_owned()
    }
}

impl Ranked for Expansion {
    open spec fn rank(self) -> nat {
        self.ordinal()
    }

    open spec fn label_text(self) -> Seq<char> {
        self.name_text()
    }

    proof fn lemma_rank_tells_apart(self, other: Self) {
        self.lemma_catalog_complete();
        other.lemma_catalog_complete();
    }

    fn place(&self) -> (at: usize) {
        self.position()
    }

    fn label(&self) -> (label: String) {
        self.name().to_owned()
    }
}

impl Ranked for KC {
    open spec fn rank(self) -> nat {
        self.ordinal()
    }

    open spec fn label_text(self) -> Seq<char> {
        self.name_text()
    }

    proof fn lemma_rank_tells_apart(self, other: Self) {
        self.lemma_catalog_complete();
        other.lemma_catalog_complete();
    }

    fn place(&self) -> (at: usize) {
        self.position()
    }

    fn label(&self) -> (label: String) {
        self.name().to_owned()
    }
}

impl Ranked for Project {
    open spec fn rank(self) -> nat {
        self.ordinal()
    }

    open spec fn label_text(self) -> Seq<char> {
        self.name_text()
    }

    proof fn lemma_rank_tells_apart(self, other: Self) {
        self.lemma_catalog_complete();
        other.lemma_catalog_complete();
    }

    fn place(&self) -> (at: usize) {
        self.position()
    }

    fn label(&self) -> (label: String) {
        self.name().to_owned()
    }
}

/// `rank` equal to `rank`, as a predicate to filter by.
pub open spec fn of_rank<T: Ranked>(rank: nat) -> spec_fn(T) -> bool {
    |item: T| item.rank() == rank
}

/// The items of rank below `upto`, by rank; those of one rank in the order
/// of the list.
pub open spec fn ranked_below<T: Ranked>(items: Seq<T>, upto: nat) -> Seq<T>
    decreases upto,
{
    if upto == 0 {
        Seq::empty()
    } else {
        ranked_below(items, (upto - 1) as nat) + items.filter(of_rank((upto - 1) as nat))
    }
}

/// The items of rank below `limit`, by rank; those of one rank in the order
/// of the list.
pub fn by_rank<T: Ranked>(items: &Vec<T>, limit: usize) -> (sorted: Vec<T>)
    ensures
        sorted@ == ranked_below(items@, limit as nat),
{
    let mut sorted: Vec<T> = Vec::new();
    let mut rank: usize = 0;
    while rank < limit
        invariant
            rank <= limit,
            sorted@ == ranked_below(items@, rank as nat),
        decreases limit - rank,
    {
        let ghost before = sorted@;
        let mut i: usize = 0;
        while i < items.len()
            invariant
                i <= items.len(),
                sorted@ == before + items@.take(i as int).filter(of_rank(rank as nat)),
            decreases items.len() - i,
        {
            let item = items[i];
            proof {
                assert(items@.take(i + 1) =~= items@.take(i as int).push(item));
                items@.take(i as int).lemma_filter_push(item, of_rank(rank as nat));
            }
            if item.place() == rank {
                sorted.push(item);
            }
            i = i + 1;
        }
        assert(items@.take(items.len() as int) =~= items@);
        rank = rank + 1;
    }
    sorted
}

} // verus!
