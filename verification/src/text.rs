//! Building text: joining pieces, repeating one, and writing numbers.

use crate::lists::distinct;
use vstd::prelude::*;

verus! {

/// The decimal digits.
pub const DIGITS: [&'static str; 10] = ["0", "1", "2", "3", "4", "5", "6", "7", "8", "9"];

/// The pieces one after another, with `separator` between each two.
pub open spec fn join(pieces: Seq<Seq<char>>, separator: Seq<char>) -> Seq<char>
    decreases pieces.len(),
{
    if pieces.len() == 0 {
        Seq::empty()
    } else if pieces.len() == 1 {
        pieces[0]
    } else {
        join(pieces.drop_last(), separator) + separator + pieces.last()
    }
}

/// `unit`, `times` times over.
pub open spec fn repeat(unit: Seq<char>, times: nat) -> Seq<char>
    decreases times,
{
    if times == 0 {
        Seq::empty()
    } else {
        repeat(unit, (times - 1) as nat) + unit
    }
}

/// The number in decimal digits, without sign or leading zero.
pub open spec fn decimal(n: nat) -> Seq<char>
    decreases n,
{
    if n < 10 {
        DIGITS@[n as int]@
    } else {
        decimal(n / 10) + DIGITS@[(n % 10) as int]@
    }
}

/// The number in decimal digits, with a minus sign where it is negative.
pub open spec fn signed_decimal(n: int) -> Seq<char> {
    if n < 0 {
        "-"@ + decimal((-n) as nat)
    } else {
        decimal(n as nat)
    }
}

/// Joining one piece more: the separator comes before it unless it is the
/// first.
pub proof fn lemma_join_push(pieces: Seq<Seq<char>>, separator: Seq<char>, piece: Seq<char>)
    ensures
        join(pieces.push(piece), separator) == if pieces.len() == 0 {
            piece
        } else {
            join(pieces, separator) + separator + piece
        },
{
    assert(pieces.push(piece).drop_last() =~= pieces);
}

/// Writes `unit` at the end of `out`, `times` times over.
pub fn push_repeated(out: &mut String, unit: &str, times: usize)
    ensures
        final(out)@ == old(out)@ + repeat(unit@, times as nat),
{
    let mut i: usize = 0;
    while i < times
        invariant
            i <= times,
            out@ == old(out)@ + repeat(unit@, i as nat),
        decreases times - i,
    {
        out.append(unit);
        i = i + 1;
        assert(out@ =~= old(out)@ + repeat(unit@, i as nat));
    }
}

/// Writes the number at the end of `out`, in decimal digits.
pub fn push_decimal(out: &mut String, n: u64)
    ensures
        final(out)@ == old(out)@ + decimal(n as nat),
    decreases n,
{
    if n >= 10 {
        push_decimal(out, n / 10);
    }
    out.append(DIGITS[(n % 10) as usize]);
    assert(out@ =~= old(out)@ + decimal(n as nat));
}

/// Writes the number at the end of `out`, in decimal digits, with a minus
/// sign where it is negative.
pub fn push_signed(out: &mut String, n: i32)
    ensures
        final(out)@ == old(out)@ + signed_decimal(n as int),
{
    if n < 0 {
        out.append("-");
        let magnitude: u64 = (-(n as i64)) as u64;
        push_decimal(out, magnitude);
        assert(out@ =~= old(out)@ + signed_decimal(n as int));
    } else {
        push_decimal(out, n as u64);
    }
}

/// What the strings hold.
pub open spec fn texts(strings: Seq<String>) -> Seq<Seq<char>> {
    Seq::new(strings.len(), |i: int| strings[i]@)
}

/// The lines, among the first `upto`, whose label is `head`.
pub open spec fn lines_under(
    labels: Seq<Seq<char>>,
    lines: Seq<Seq<char>>,
    head: Seq<char>,
    upto: int,
) -> Seq<Seq<char>>
    decreases upto,
{
    if upto <= 0 {
        Seq::empty()
    } else {
        let before = lines_under(labels, lines, head, upto - 1);
        if labels[upto - 1] == head {
            before.push(lines[upto - 1])
        } else {
            before
        }
    }
}

/// A group: the label on a line of its own, and under it the lines that
/// carry the label, one below the other.
pub open spec fn group_text(labels: Seq<Seq<char>>, lines: Seq<Seq<char>>, head: Seq<char>) -> Seq<
    char,
> {
    head + "\n"@ + join(lines_under(labels, lines, head, labels.len() as int), "\n"@) + "\n"@
}

/// The groups of the first `upto` heads, one after another.
pub open spec fn groups_text(
    labels: Seq<Seq<char>>,
    lines: Seq<Seq<char>>,
    heads: Seq<Seq<char>>,
    upto: int,
) -> Seq<char>
    decreases upto,
{
    if upto <= 0 {
        Seq::empty()
    } else {
        groups_text(labels, lines, heads, upto - 1) + group_text(labels, lines, heads[upto - 1])
    }
}

/// The lines in groups by their labels. The groups come in the order in
/// which their labels first occur, the lines of a group in their own order.
pub open spec fn grouped_text(labels: Seq<Seq<char>>, lines: Seq<Seq<char>>) -> Seq<char> {
    groups_text(labels, lines, distinct(labels), distinct(labels).len() as int)
}

/// Does one of the strings hold the text?
pub fn has_text(strings: &Vec<String>, text: &String) -> (found: bool)
    ensures
        found == texts(strings@).contains(text@),
{
    let mut i: usize = 0;
    while i < strings.len()
        invariant
            i <= strings.len(),
            forall|j: int| 0 <= j < i ==> texts(strings@)[j] != text@,
        decreases strings.len() - i,
    {
        if strings[i] == *text {
            assert(texts(strings@)[i as int] == text@);
            return true;
        }
        i = i + 1;
    }
    false
}

/// The strings without repetition, each where it first stands.
pub fn distinct_texts(strings: &Vec<String>) -> (out: Vec<String>)
    ensures
        texts(out@) == distinct(texts(strings@)),
{
    let mut out: Vec<String> = Vec::new();
    let mut i: usize = 0;
    assert(texts(out@) =~= distinct(texts(strings@).take(0)));
    while i < strings.len()
        invariant
            i <= strings.len(),
            texts(out@) == distinct(texts(strings@).take(i as int)),
        decreases strings.len() - i,
    {
        let seen = has_text(&out, &strings[i]);
        let ghost before = texts(out@);
        proof {
            let next = texts(strings@).take(i + 1);
            assert(next.drop_last() =~= texts(strings@).take(i as int));
            assert(next.last() == strings@[i as int]@);
        }
        if !seen {
            out.push(strings[i].clone());
            assert(texts(out@) =~= before.push(strings@[i as int]@));
        }
        i = i + 1;
    }
    assert(texts(strings@).take(strings.len() as int) =~= texts(strings@));
    out
}

/// Writes the lines at the end of `out`, in groups by their labels.
pub fn push_grouped(out: &mut String, labels: &Vec<String>, lines: &Vec<String>)
    requires
        labels.len() == lines.len(),
    ensures
        final(out)@ == old(out)@ + grouped_text(texts(labels@), texts(lines@)),
{
    let heads = distinct_texts(labels);
    let ghost all_labels = texts(labels@);
    let ghost all_lines = texts(lines@);
    let ghost all_heads = texts(heads@);
    let mut h: usize = 0;
    while h < heads.len()
        invariant
            h <= heads.len(),
            labels.len() == lines.len(),
            all_labels == texts(labels@),
            all_lines == texts(lines@),
            all_heads == texts(heads@),
            out@ == old(out)@ + groups_text(all_labels, all_lines, all_heads, h as int),
        decreases heads.len() - h,
    {
        let ghost head = all_heads[h as int];
        let ghost start = out@;
        out.append(heads[h].as_str());
        out.append("\n");
        let ghost opened = out@;
        let mut first: bool = true;
        let mut i: usize = 0;
        while i < labels.len()
            invariant
                i <= labels.len(),
                labels.len() == lines.len(),
                h < heads.len(),
                all_labels == texts(labels@),
                all_lines == texts(lines@),
                head == heads@[h as int]@,
                first == (lines_under(all_labels, all_lines, head, i as int).len() == 0),
                out@ == opened + join(lines_under(all_labels, all_lines, head, i as int), "\n"@),
            decreases labels.len() - i,
        {
            let ghost under = lines_under(all_labels, all_lines, head, i as int);
            if labels[i] == heads[h] {
                proof {
                    lemma_join_push(under, "\n"@, all_lines[i as int]);
                }
                if !first {
                    out.append("\n");
                }
                out.append(lines[i].as_str());
                first = false;
                assert(out@ =~= opened + join(under.push(all_lines[i as int]), "\n"@));
            }
            i = i + 1;
        }
        out.append("\n");
        assert(out@ =~= start + group_text(all_labels, all_lines, head));
        h = h + 1;
        assert(out@ =~= old(out)@ + groups_text(all_labels, all_lines, all_heads, h as int));
    }
}

} // verus!
