//! A histogram for counting instances.

use crate::rank::Ranked;
use crate::text::{decimal, join, lemma_join_push, push_decimal, push_repeated, repeat};
use std::ops::Add;
use vstd::prelude::*;
use vstd::std_specs::ops::AddSpecImpl;

verus! {

/// The entries are in the order of their values' ranks, no value twice.
pub open spec fn ascending<T: Ranked>(entries: Seq<(T, usize)>) -> bool {
    forall|i: int, j: int| 0 <= i < j < entries.len() ==> entries[i].0.rank() < entries[j].0.rank()
}

/// A histogram for counting instances.
pub struct Hist<T: Ranked> {
    hist: Vec<(T, usize)>,
}

/// The line of a bucket: its label filled up with blanks to `width`, a bar
/// as long as the count, and the count.
pub open spec fn bucket_line(label: Seq<char>, width: nat, count: nat) -> Seq<char> {
    label + repeat(" "@, (width - label.len()) as nat) + ": "@ + repeat("■"@, count) + " ("@
        + decimal(count) + ")"@
}

/// The length of the longest label among the first `upto` entries.
pub open spec fn widest<T: Ranked>(entries: Seq<(T, usize)>, upto: int) -> nat
    decreases upto,
{
    if upto <= 0 {
        0
    } else {
        let before = widest(entries, upto - 1);
        let here = entries[upto - 1].0.label_text().len();
        if here > before {
            here
        } else {
            before
        }
    }
}

/// The lines of the first `upto` entries.
pub open spec fn bucket_lines<T: Ranked>(entries: Seq<(T, usize)>, width: nat, upto: int) -> Seq<
    Seq<char>,
> {
    Seq::new(
        upto as nat,
        |i: int| bucket_line(entries[i].0.label_text(), width, entries[i].1 as nat),
    )
}

/// One of the entries is the bucket of the value.
pub open spec fn holds<T: Ranked>(entries: Seq<(T, usize)>, v: T) -> bool {
    exists|i: int| 0 <= i < entries.len() && (#[trigger] entries[i]).0 == v
}

/// What the bucket of the value holds, and 0 where there is none.
pub open spec fn count_in<T: Ranked>(entries: Seq<(T, usize)>, v: T) -> nat {
    if holds(entries, v) {
        let i = choose|i: int| 0 <= i < entries.len() && (#[trigger] entries[i]).0 == v;
        entries[i].1 as nat
    } else {
        0
    }
}

/// In ascending entries each value has one entry only, which says what its
/// bucket holds.
pub proof fn lemma_ascending<T: Ranked>(entries: Seq<(T, usize)>)
    requires
        ascending(entries),
    ensures
        forall|i: int|
            0 <= i < entries.len() ==> holds(entries, (#[trigger] entries[i]).0) && count_in(
                entries,
                entries[i].0,
            ) == entries[i].1,
{
    assert forall|i: int| 0 <= i < entries.len() implies holds(entries, (#[trigger] entries[i]).0)
        && count_in(entries, entries[i].0) == entries[i].1 by {
        let v = entries[i].0;
        let k = choose|k: int| 0 <= k < entries.len() && (#[trigger] entries[k]).0 == v;
        if k < i {
            assert(entries[k].0.rank() < entries[i].0.rank());
        } else if i < k {
            assert(entries[i].0.rank() < entries[k].0.rank());
        }
    }
}

/// Raising one count leaves the entries ascending and the other buckets as
/// they were.
pub proof fn lemma_raised<T: Ranked>(entries: Seq<(T, usize)>, at: int, sum: usize)
    requires
        ascending(entries),
        0 <= at < entries.len(),
    ensures
        ({
            let v = entries[at].0;
            let after = entries.update(at, (v, sum));
            &&& ascending(after)
            &&& forall|w: T| holds(after, w) == holds(entries, w)
            &&& forall|w: T| w != v ==> count_in(after, w) == count_in(entries, w)
            &&& count_in(after, v) == sum
        }),
{
    let v = entries[at].0;
    let after = entries.update(at, (v, sum));
    assert forall|i: int, j: int| 0 <= i < j < after.len() implies after[i].0.rank()
        < after[j].0.rank() by {
        assert(after[i].0 == entries[i].0 && after[j].0 == entries[j].0);
    }
    lemma_ascending(entries);
    lemma_ascending(after);
    assert forall|w: T| holds(after, w) == holds(entries, w) by {
        if holds(after, w) {
            let k = choose|k: int| 0 <= k < after.len() && (#[trigger] after[k]).0 == w;
            assert(entries[k].0 == w);
        }
        if holds(entries, w) {
            let k = choose|k: int| 0 <= k < entries.len() && (#[trigger] entries[k]).0 == w;
            assert(after[k].0 == w);
        }
    }
    assert forall|w: T| w != v implies count_in(after, w) == count_in(entries, w) by {
        if holds(entries, w) {
            let k = choose|k: int| 0 <= k < entries.len() && (#[trigger] entries[k]).0 == w;
            assert(after[k] == entries[k]);
            assert(count_in(after, after[k].0) == after[k].1);
        }
    }
    assert(after[at].0 == v);
    assert(count_in(after, after[at].0) == after[at].1);
}

/// A new entry at the place that its rank asks for leaves the entries
/// ascending and the other buckets as they were.
pub proof fn lemma_inserted<T: Ranked>(entries: Seq<(T, usize)>, at: int, v: T, more: usize)
    requires
        ascending(entries),
        0 <= at <= entries.len(),
        forall|i: int| 0 <= i < at ==> (#[trigger] entries[i]).0.rank() < v.rank(),
        at < entries.len() ==> entries[at].0.rank() > v.rank(),
    ensures
        ({
            let after = entries.insert(at, (v, more));
            &&& ascending(after)
            &&& !holds(entries, v)
            &&& forall|w: T| holds(after, w) == (holds(entries, w) || w == v)
            &&& forall|w: T| w != v ==> count_in(after, w) == count_in(entries, w)
            &&& count_in(after, v) == more
        }),
{
    let after = entries.insert(at, (v, more));
    assert forall|i: int| 0 <= i < after.len() implies (#[trigger] after[i]) == if i < at {
        entries[i]
    } else if i == at {
        (v, more)
    } else {
        entries[i - 1]
    } by {}
    assert forall|i: int| at <= i < entries.len() implies (#[trigger] entries[i]).0.rank()
        > v.rank() by {
        if i > at {
            assert(entries[at].0.rank() < entries[i].0.rank());
        }
    }
    assert forall|i: int, j: int| 0 <= i < j < after.len() implies after[i].0.rank()
        < after[j].0.rank() by {
        let old_i = if i < at { i } else { i - 1 };
        let old_j = if j < at { j } else { j - 1 };
        if i != at && j != at {
            assert(after[i] == entries[old_i] && after[j] == entries[old_j]);
        } else if i == at {
            assert(after[j] == entries[old_j]);
        } else {
            assert(after[i] == entries[old_i]);
        }
    }
    lemma_ascending(entries);
    lemma_ascending(after);
    if holds(entries, v) {
        let k = choose|k: int| 0 <= k < entries.len() && (#[trigger] entries[k]).0 == v;
        assert(entries[k].0.rank() == v.rank());
    }
    assert forall|w: T| holds(after, w) == (holds(entries, w) || w == v) by {
        if holds(after, w) && w != v {
            let k = choose|k: int| 0 <= k < after.len() && (#[trigger] after[k]).0 == w;
            let old_k = if k > at { k - 1 } else { k };
            assert(entries[old_k].0 == w);
        }
        if holds(entries, w) {
            let k = choose|k: int| 0 <= k < entries.len() && (#[trigger] entries[k]).0 == w;
            let new_k = if k >= at { k + 1 } else { k };
            assert(after[new_k].0 == w);
        }
        if w == v {
            assert(after[at].0 == w);
        }
    }
    assert forall|w: T| w != v implies count_in(after, w) == count_in(entries, w) by {
        if holds(entries, w) {
            let k = choose|k: int| 0 <= k < entries.len() && (#[trigger] entries[k]).0 == w;
            let new_k = if k >= at { k + 1 } else { k };
            assert(after[new_k] == entries[k]);
            assert(count_in(after, after[new_k].0) == after[new_k].1);
        }
    }
    assert(after[at].0 == v);
    assert(count_in(after, after[at].0) == after[at].1);
}

/// The text of a histogram: one line for each entry, with the labels filled
/// up to the longest of them.
pub open spec fn hist_text<T: Ranked>(entries: Seq<(T, usize)>) -> Seq<char> {
    join(bucket_lines(entries, widest(entries, entries.len() as int), entries.len() as int), "\n"@)
}

/// How often the value occurs in the list.
pub open spec fn occurrences<T>(items: Seq<T>, v: T) -> nat
    decreases items.len(),
{
    if items.len() == 0 {
        0
    } else {
        occurrences(items.drop_last(), v) + if items.last() == v {
            1nat
        } else {
            0
        }
    }
}

/// The entries are the histogram of the items, with a bucket for each of
/// `buckets` besides: they ascend, there is an entry for each value that
/// occurs in one of the two lists and for no other, and the entry of a
/// value says how often it occurs among the items.
pub open spec fn histogram_of<T: Ranked>(entries: Seq<(T, usize)>, buckets: Seq<T>, items: Seq<T>) -> bool {
    &&& ascending(entries)
    &&& forall|v: T| holds(entries, v) == (buckets.contains(v) || items.contains(v))
    &&& forall|v: T| count_in(entries, v) == occurrences(items, v)
}

/// A value occurs in a list no more often than the list is long, and not at
/// all where the list does not hold it.
pub proof fn lemma_occurrences<T>(items: Seq<T>, v: T)
    ensures
        occurrences(items, v) <= items.len(),
        !items.contains(v) ==> occurrences(items, v) == 0,
    decreases items.len(),
{
    if items.len() > 0 {
        lemma_occurrences(items.drop_last(), v);
        if !items.contains(v) {
            if items.drop_last().contains(v) {
                let i = choose|i: int| 0 <= i < items.drop_last().len() && items.drop_last()[i] == v;
                assert(items[i] == v);
            }
            assert(items[items.len() - 1] != v);
        }
    }
}

/// Ascending entries without the last are ascending, and hold what the
/// whole holds but for the last value.
pub proof fn lemma_without_last<T: Ranked>(entries: Seq<(T, usize)>)
    requires
        ascending(entries),
        entries.len() > 0,
    ensures
        ascending(entries.drop_last()),
        forall|v: T|
            holds(entries.drop_last(), v) == (holds(entries, v) && v != entries.last().0),
        forall|v: T|
            v != entries.last().0 ==> count_in(entries.drop_last(), v) == count_in(entries, v),
{
    let front = entries.drop_last();
    let last = entries.last();
    assert forall|i: int| 0 <= i < front.len() implies #[trigger] front[i] == entries[i] by {}
    assert forall|i: int, j: int| 0 <= i < j < front.len() implies front[i].0.rank()
        < front[j].0.rank() by {
        assert(front[i] == entries[i] && front[j] == entries[j]);
    }
    lemma_ascending(entries);
    lemma_ascending(front);
    assert forall|v: T| holds(front, v) == (holds(entries, v) && v != last.0) by {
        if holds(front, v) {
            let k = choose|k: int| 0 <= k < front.len() && (#[trigger] front[k]).0 == v;
            assert(entries[k].0 == v);
            assert(entries[k].0.rank() < entries[entries.len() - 1].0.rank());
        }
        if holds(entries, v) && v != last.0 {
            let k = choose|k: int| 0 <= k < entries.len() && (#[trigger] entries[k]).0 == v;
            assert(front[k].0 == v);
        }
    }
    assert forall|v: T| v != last.0 implies count_in(front, v) == count_in(entries, v) by {
        if holds(front, v) {
            let k = choose|k: int| 0 <= k < front.len() && (#[trigger] front[k]).0 == v;
            assert(front[k] == entries[k]);
            assert(count_in(entries, entries[k].0) == entries[k].1);
        }
    }
}

/// Ascending entries are settled by what they hold: two histograms with the
/// same buckets and the same counts have the same entries.
pub proof fn lemma_same_entries<T: Ranked>(a: Seq<(T, usize)>, b: Seq<(T, usize)>)
    requires
        ascending(a),
        ascending(b),
        forall|v: T| holds(a, v) == holds(b, v),
        forall|v: T| count_in(a, v) == count_in(b, v),
    ensures
        a == b,
    decreases a.len(),
{
    lemma_ascending(a);
    lemma_ascending(b);
    if a.len() == 0 {
        if b.len() > 0 {
            assert(holds(b, b[0].0));
        }
        assert(a =~= b);
    } else {
        let last = a.last();
        assert(holds(a, a[a.len() - 1].0));
        let j = choose|j: int| 0 <= j < b.len() && (#[trigger] b[j]).0 == last.0;
        let other = b.last();
        assert(holds(b, b[b.len() - 1].0));
        let i = choose|i: int| 0 <= i < a.len() && (#[trigger] a[i]).0 == other.0;
        if j < b.len() - 1 {
            assert(b[j].0.rank() < b[b.len() - 1].0.rank());
        }
        if i < a.len() - 1 {
            assert(a[i].0.rank() < a[a.len() - 1].0.rank());
        }
        last.0.lemma_rank_tells_apart(other.0);
        assert(count_in(a, a[a.len() - 1].0) == last.1);
        assert(count_in(b, b[b.len() - 1].0) == other.1);
        assert(last == other);
        lemma_without_last(a);
        lemma_without_last(b);
        lemma_same_entries(a.drop_last(), b.drop_last());
        assert(a =~= a.drop_last().push(last));
        assert(b =~= b.drop_last().push(other));
    }
}

impl<T: Ranked> Hist<T> {
    #[verifier::type_invariant]
    spec fn ordered(&self) -> bool {
        ascending(self.hist@)
    }

    /// The buckets with their counts, in the order of the values' ranks.
    pub closed spec fn entries(&self) -> Seq<(T, usize)> {
        self.hist@
    }

    /// The histogram has a bucket for the value.
    pub open spec fn has(&self, v: T) -> bool {
        holds(self.entries(), v)
    }

    /// How often the value was counted: what its bucket holds, and 0 where
    /// there is none.
    pub open spec fn count_of(&self, v: T) -> nat {
        count_in(self.entries(), v)
    }

    /// The text of the histogram: one line for each bucket, in the order of
    /// the values' ranks.
    pub open spec fn pretty_text(&self) -> Seq<char> {
        hist_text(self.entries())
    }

    /// The histogram counts the items, and has a bucket for each of
    /// `buckets` besides.
    pub open spec fn counts(&self, buckets: Seq<T>, items: Seq<T>) -> bool {
        histogram_of(self.entries(), buckets, items)
    }

    /// No values counted, the empty `Hist`.
    pub fn empty() -> (hist: Self)
        ensures
            hist.entries().len() == 0,
            ascending(hist.entries()),
            forall|v: T| !hist.has(v) && hist.count_of(v) == 0,
    {
        Hist { hist: Vec::new() }
    }

    /// Count a single instance.
    pub fn one(v: T) -> (hist: Self)
        ensures
            hist.entries() == seq![(v, 1usize)],
            ascending(hist.entries()),
            forall|w: T| hist.has(w) == (w == v),
            forall|w: T| hist.count_of(w) == if w == v { 1nat } else { 0 },
    {
        Hist::n(v, 1)
    }

    /// Count `n` instances.
    pub fn n(v: T, n: usize) -> (hist: Self)
        ensures
            hist.entries() == seq![(v, n)],
            ascending(hist.entries()),
            forall|w: T| hist.has(w) == (w == v),
            forall|w: T| hist.count_of(w) == if w == v { n as nat } else { 0 },
    {
        let mut entries: Vec<(T, usize)> = Vec::new();
        entries.push((v, n));
        let hist = Hist { hist: entries };
        proof {
            assert(hist.entries()[0].0 == v);
            assert forall|w: T| hist.has(w) == (w == v) by {
                if w == v {
                    assert(hist.entries()[0].0 == w);
                }
            }
        }
        hist
    }

    /// Where the value's bucket stands, or where it would have to stand.
    fn find(&self, v: &T) -> (at: usize)
        ensures
            at <= self.entries().len(),
            forall|i: int| 0 <= i < at ==> (#[trigger] self.entries()[i]).0.rank() < v.rank(),
            at < self.entries().len() ==> self.entries()[at as int].0.rank() >= v.rank(),
    {
        let rank = v.place();
        let mut at: usize = 0;
        while at < self.hist.len() && self.hist[at].0.place() < rank
            invariant
                at <= self.hist.len(),
                rank == v.rank(),
                forall|i: int| 0 <= i < at ==> (#[trigger] self.hist@[i]).0.rank() < v.rank(),
            decreases self.hist.len() - at,
        {
            at = at + 1;
        }
        at
    }

    /// Get element count.
    pub fn count(&self, v: &T) -> (count: usize)
        ensures
            count == self.count_of(*v),
    {
        proof {
            use_type_invariant(self);
            lemma_ascending(self.hist@);
        }
        let at = self.find(v);
        if at < self.hist.len() && self.hist[at].0.place() == v.place() {
            proof {
                v.lemma_rank_tells_apart(self.hist@[at as int].0);
            }
            self.hist[at].1
        } else {
            proof {
                if self.has(*v) {
                    let k = choose|k: int|
                        0 <= k < self.entries().len() && (#[trigger] self.entries()[k]).0 == *v;
                    if k > at {
                        assert(self.entries()[at as int].0.rank() < self.entries()[k].0.rank());
                    }
                }
            }
            0
        }
    }

    /// The two counts of the value fit into one bucket.
    pub open spec fn fits(&self, v: T, more: usize) -> bool {
        self.count_of(v) + more <= usize::MAX
    }

    /// Counts `more` instances of a value on top of what is counted.
    pub fn tally(self, v: T, more: usize) -> (hist: Self)
        requires
            self.fits(v, more),
        ensures
            ascending(hist.entries()),
            forall|w: T| hist.has(w) == (self.has(w) || w == v),
            forall|w: T| hist.count_of(w) == self.count_of(w) + if w == v { more as nat } else { 0 },
    {
        proof {
            use_type_invariant(&self);
            lemma_ascending(self.hist@);
        }
        let at = self.find(&v);
        let ghost before = self.hist@;
        let mut entries = self.hist;
        if at < entries.len() && entries[at].0.place() == v.place() {
            proof {
                v.lemma_rank_tells_apart(entries@[at as int].0);
            }
            let sum = entries[at].1 + more;
            entries.set(at, (v, sum));
            proof {
                lemma_raised(before, at as int, sum);
            }
        } else {
            entries.insert(at, (v, more));
            proof {
                lemma_inserted(before, at as int, v, more);
            }
        }
        Hist { hist: entries }
    }

    /// Every count of `other` fits on top of the count here.
    pub open spec fn room_for(&self, other: &Self) -> bool {
        forall|v: T| self.count_of(v) + other.count_of(v) <= usize::MAX
    }

    /// The histogram of the items, with a bucket for each of `buckets`
    /// besides: empty, unless the value occurs among the items.
    pub fn of(buckets: &Vec<T>, items: &Vec<T>) -> (hist: Self)
        ensures
            hist.counts(buckets@, items@),
    {
        let mut hist = Hist::empty();
        let mut b: usize = 0;
        while b < buckets.len()
            invariant
                b <= buckets.len(),
                ascending(hist.entries()),
                forall|v: T| hist.has(v) == buckets@.take(b as int).contains(v),
                forall|v: T| hist.count_of(v) == 0,
            decreases buckets.len() - b,
        {
            let ghost before = buckets@.take(b as int);
            hist = hist.tally(buckets[b], 0);
            proof {
                let after = buckets@.take(b + 1);
                assert(after =~= before.push(buckets@[b as int]));
                assert forall|v: T| hist.has(v) == after.contains(v) by {
                    if before.contains(v) {
                        let i = choose|i: int| 0 <= i < before.len() && before[i] == v;
                        assert(after[i] == v);
                    }
                    if v == buckets@[b as int] {
                        assert(after[b as int] == v);
                    }
                    if after.contains(v) {
                        let i = choose|i: int| 0 <= i < after.len() && after[i] == v;
                        if i < b {
                            assert(before[i] == v);
                        }
                    }
                }
            }
            b = b + 1;
        }
        assert(buckets@.take(buckets.len() as int) =~= buckets@);
        let mut i: usize = 0;
        while i < items.len()
            invariant
                i <= items.len(),
                ascending(hist.entries()),
                forall|v: T| hist.has(v) == (buckets@.contains(v) || items@.take(i as int).contains(v)),
                forall|v: T| hist.count_of(v) == occurrences(items@.take(i as int), v),
            decreases items.len() - i,
        {
            let item = items[i];
            let ghost before = items@.take(i as int);
            proof {
                lemma_occurrences(before, item);
            }
            hist = hist.tally(item, 1);
            proof {
                let after = items@.take(i + 1);
                assert(after.drop_last() =~= before);
                assert(after.last() == item);
                assert forall|v: T| hist.has(v) == (buckets@.contains(v) || after.contains(v)) by {
                    if before.contains(v) {
                        let k = choose|k: int| 0 <= k < before.len() && before[k] == v;
                        assert(after[k] == v);
                    }
                    if v == item {
                        assert(after[i as int] == v);
                    }
                    if after.contains(v) {
                        let k = choose|k: int| 0 <= k < after.len() && after[k] == v;
                        if k < i {
                            assert(before[k] == v);
                        }
                    }
                }
            }
            i = i + 1;
        }
        assert(items@.take(i as int) =~= items@);
        assert(hist.counts(buckets@, items@)) by {
            assert forall|v: T| holds(hist.entries(), v) == (buckets@.contains(v) || items@.contains(
                v,
            )) by {
                assert(hist.has(v) == holds(hist.entries(), v));
            }
            assert forall|v: T| count_in(hist.entries(), v) == occurrences(items@, v) by {
                assert(hist.count_of(v) == count_in(hist.entries(), v));
            }
        }
        hist
    }

    /// The histogram as text: one line for each bucket, in the order of the
    /// values' ranks, with the labels filled up to the longest of them.
    pub fn pretty(&self) -> (text: String)
        ensures
            text@ == self.pretty_text(),
    {
        let ghost entries = self.entries();
        let mut width: usize = 0;
        let mut i: usize = 0;
        while i < self.hist.len()
            invariant
                i <= self.hist.len(),
                entries == self.hist@,
                width == widest(entries, i as int),
            decreases self.hist.len() - i,
        {
            let label = self.hist[i].0.label();
            let here = label.as_str().unicode_len();
            if here > width {
                width = here;
            }
            i = i + 1;
        }
        let mut text = String::new();
        let mut k: usize = 0;
        while k < self.hist.len()
            invariant
                k <= self.hist.len(),
                entries == self.hist@,
                width == widest(entries, entries.len() as int),
                text@ == join(bucket_lines(entries, width as nat, k as int), "\n"@),
            decreases self.hist.len() - k,
        {
            let (v, count) = self.hist[k];
            let label = v.label();
            let here = label.as_str().unicode_len();
            proof {
                lemma_widest(entries, k as int, entries.len() as int);
                let lines = bucket_lines(entries, width as nat, k as int);
                let line = bucket_line(v.label_text(), width as nat, count as nat);
                assert(bucket_lines(entries, width as nat, k + 1) =~= lines.push(line));
                lemma_join_push(lines, "\n"@, line);
            }
            let ghost so_far = text@;
            if k > 0 {
                text.append("\n");
            }
            let ghost start = text@;
            text.append(label.as_str());
            push_repeated(&mut text, " ", width - here);
            text.append(": ");
            push_repeated(&mut text, "■", count);
            text.append(" (");
            push_decimal(&mut text, count as u64);
            text.append(")");
            assert(text@ =~= start + bucket_line(v.label_text(), width as nat, count as nat));
            k = k + 1;
        }
        text
    }
}

impl<T: Ranked> Add<Hist<T>> for Hist<T> {
    type Output = Hist<T>;

    /// Merge counts of elements: the sum has the buckets of both, and in
    /// each the two counts added up.
    fn add(self, other: Hist<T>) -> (sum: Hist<T>)
        ensures
            ascending(sum.entries()),
            forall|v: T| sum.has(v) == (self.has(v) || other.has(v)),
            forall|v: T| sum.count_of(v) == self.count_of(v) + other.count_of(v),
    {
        proof {
            use_type_invariant(&self);
            use_type_invariant(&other);
            lemma_ascending(other.hist@);
        }
        let ghost start = self;
        let mut sum = self;
        let mut i: usize = 0;
        while i < other.hist.len()
            invariant
                i <= other.hist.len(),
                ascending(sum.entries()),
                ascending(other.entries()),
                other.entries() == other.hist@,
                start.room_for(&other),
                forall|v: T|
                    sum.has(v) == (start.has(v) || exists|k: int|
                        0 <= k < i && (#[trigger] other.entries()[k]).0 == v),
                forall|v: T|
                    sum.count_of(v) == start.count_of(v) + if exists|k: int|
                        0 <= k < i && (#[trigger] other.entries()[k]).0 == v {
                        other.count_of(v)
                    } else {
                        0
                    },
            decreases other.hist.len() - i,
        {
            let (v, more) = other.hist[i];
            let ghost before = sum;
            proof {
                lemma_ascending(other.entries());
                assert(other.entries()[i as int].0 == v);
                assert(other.count_of(v) == more);
                if exists|k: int| 0 <= k < i && (#[trigger] other.entries()[k]).0 == v {
                    let k = choose|k: int| 0 <= k < i && (#[trigger] other.entries()[k]).0 == v;
                    assert(other.entries()[k].0.rank() < other.entries()[i as int].0.rank());
                }
            }
            sum = sum.tally(v, more);
            proof {
                assert forall|w: T|
                    sum.has(w) == (start.has(w) || exists|k: int|
                        0 <= k < i + 1 && (#[trigger] other.entries()[k]).0 == w) by {
                    if exists|k: int| 0 <= k < i + 1 && (#[trigger] other.entries()[k]).0 == w {
                        let k = choose|k: int| 0 <= k < i + 1 && (#[trigger] other.entries()[k]).0 == w;
                        if k < i {
                            assert(before.has(w));
                        }
                    }
                    if w == v {
                        assert(other.entries()[i as int].0 == w);
                    }
                }
                assert forall|w: T|
                    sum.count_of(w) == start.count_of(w) + if exists|k: int|
                        0 <= k < i + 1 && (#[trigger] other.entries()[k]).0 == w {
                        other.count_of(w)
                    } else {
                        0
                    } by {
                    if w == v {
                        assert(other.entries()[i as int].0 == w);
                    } else {
                        if exists|k: int| 0 <= k < i + 1 && (#[trigger] other.entries()[k]).0 == w {
                            let k = choose|k: int|
                                0 <= k < i + 1 && (#[trigger] other.entries()[k]).0 == w;
                            assert(k < i);
                        }
                    }
                }
            }
            i = i + 1;
        }
        proof {
            assert forall|v: T| other.has(v) == (exists|k: int|
                0 <= k < i && (#[trigger] other.entries()[k]).0 == v) by {}
            assert forall|v: T| !other.has(v) implies other.count_of(v) == 0 by {}
        }
        sum
    }
}

impl<T: Ranked> AddSpecImpl<Hist<T>> for Hist<T> {
    /// The sum is not given as a value: `add` says which buckets it has and
    /// what they hold.
    open spec fn obeys_add_spec() -> bool {
        false
    }

    /// Two histograms can be added where no bucket overflows.
    open spec fn add_req(self, other: Hist<T>) -> bool {
        self.room_for(&other)
    }

    /// Not referred to, since `obeys_add_spec` is false.
    open spec fn add_spec(self, other: Hist<T>) -> Hist<T> {
        self
    }
}

/// The longest label among the first entries is no longer than the longest
/// among more of them.
pub proof fn lemma_widest<T: Ranked>(entries: Seq<(T, usize)>, at: int, upto: int)
    requires
        0 <= at < upto,
    ensures
        entries[at].0.label_text().len() <= widest(entries, upto),
    decreases upto,
{
    if at < upto - 1 {
        lemma_widest(entries, at, upto - 1);
    }
}

} // verus!
