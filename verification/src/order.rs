//! The order of the file list: by section, then by path, where paths are
//! compared component by component (as `std::path::Path` orders them).
use vstd::prelude::*;
use vstd::seq_lib::*;

use crate::git::{FileEntry, Section};
use crate::text::chars_of;

verus! {

/// The weight of a character in path order: the separator sorts before every
/// other character, so that `a/b` comes before `a.b` and `a-b`, as it does
/// when the components `a` and `a.b` are compared.
pub open spec fn char_weight(c: char) -> int {
    if c == '/' {
        0
    } else {
        (c as u32) + 1
    }
}

pub open spec fn path_weights(p: Seq<char>) -> Seq<int> {
    p.map_values(|c: char| char_weight(c))
}

/// Lexicographic "less than" on integer sequences.
pub open spec fn lex_lt(a: Seq<int>, b: Seq<int>) -> bool
    decreases a.len(),
{
    if a.len() == 0 {
        b.len() > 0
    } else if b.len() == 0 {
        false
    } else if a[0] < b[0] {
        true
    } else if a[0] > b[0] {
        false
    } else {
        lex_lt(a.drop_first(), b.drop_first())
    }
}

/// Path `a` comes strictly before path `b`.
pub open spec fn path_lt(a: Seq<char>, b: Seq<char>) -> bool {
    lex_lt(path_weights(a), path_weights(b))
}

pub open spec fn section_rank(s: Section) -> int {
    match s {
        Section::Staged => 0,
        Section::Unstaged => 1,
        Section::Review => 2,
    }
}

/// Entry `a` is listed strictly before entry `b`.
pub open spec fn entry_lt(a: FileEntry, b: FileEntry) -> bool {
    section_rank(a.section) < section_rank(b.section) || (section_rank(a.section)
        == section_rank(b.section) && path_lt(a.path@, b.path@))
}

/// No entry is listed after one that should come after it.
pub open spec fn listing_sorted(s: Seq<FileEntry>) -> bool {
    forall|i: int, j: int| 0 <= i < j < s.len() ==> !entry_lt(#[trigger] s[j], #[trigger] s[i])
}

/// `a < b` and `b <= c` give `a < c`.
pub proof fn lemma_lex_lt_le(a: Seq<int>, b: Seq<int>, c: Seq<int>)
    requires
        lex_lt(a, b),
        !lex_lt(c, b),
    ensures
        lex_lt(a, c),
    decreases a.len(),
{
    if a.len() > 0 && b.len() > 0 && c.len() > 0 && a[0] == b[0] && c[0] == b[0] {
        lemma_lex_lt_le(a.drop_first(), b.drop_first(), c.drop_first());
    }
}

/// Of two entries neither before the other, the first comes after whatever the second comes after.
pub proof fn lemma_entry_lt_le(a: FileEntry, b: FileEntry, c: FileEntry)
    requires
        entry_lt(a, b),
        !entry_lt(c, b),
    ensures
        entry_lt(a, c),
{
    if section_rank(a.section) == section_rank(b.section) && section_rank(c.section)
        == section_rank(b.section) {
        lemma_lex_lt_le(path_weights(a.path@), path_weights(b.path@), path_weights(c.path@));
    }
}

/// Whether path `a` comes strictly before path `b`.
pub fn path_precedes(a: &str, b: &str) -> (r: bool)
    ensures
        r == path_lt(a@, b@),
{
    let va = chars_of(a);
    let vb = chars_of(b);
    let ghost wa = path_weights(a@);
    let ghost wb = path_weights(b@);
    let mut i: usize = 0;
    assert(wa.skip(0) =~= wa);
    assert(wb.skip(0) =~= wb);
    while i < va.len() && i < vb.len() && va[i] == vb[i]
        invariant
            va@ == a@,
            vb@ == b@,
            wa == path_weights(a@),
            wb == path_weights(b@),
            i <= va.len(),
            i <= vb.len(),
            lex_lt(wa, wb) == lex_lt(wa.skip(i as int), wb.skip(i as int)),
        decreases va.len() - i,
    {
        assert(wa.skip(i as int).drop_first() =~= wa.skip(i + 1));
        assert(wb.skip(i as int).drop_first() =~= wb.skip(i + 1));
        i = i + 1;
    }
    if i == va.len() {
        assert(wa.skip(i as int).len() == 0);
        i < vb.len()
    } else if i == vb.len() {
        false
    } else {
        let ca = va[i];
        let cb = vb[i];
        assert(wa.skip(i as int)[0] == char_weight(ca));
        assert(wb.skip(i as int)[0] == char_weight(cb));
        proof {
            vstd::utf8::char_u32_cast(ca, ca as u32);
            vstd::utf8::char_u32_cast(cb, cb as u32);
        }
        assert(char_weight(ca) != char_weight(cb));
        if ca == '/' {
            true
        } else if cb == '/' {
            false
        } else {
            (ca as u32) < (cb as u32)
        }
    }
}

/// Whether entry `a` is listed strictly before entry `b`.
pub fn entry_precedes(a: &FileEntry, b: &FileEntry) -> (r: bool)
    ensures
        r == entry_lt(*a, *b),
{
    let ra = rank(a.section);
    let rb = rank(b.section);
    if ra < rb {
        true
    } else if ra > rb {
        false
    } else {
        path_precedes(a.path.as_str(), b.path.as_str())
    }
}

fn rank(s: Section) -> (r: u8)
    ensures
        r as int == section_rank(s),
{
    match s {
        Section::Staged => 0,
        Section::Unstaged => 1,
        Section::Review => 2,
    }
}

/// The entries listed in the same place as `f`: same section, same path.
pub open spec fn ties(f: FileEntry) -> spec_fn(FileEntry) -> bool {
    |x: FileEntry| section_rank(x.section) == section_rank(f.section) && x.path@ == f.path@
}

/// Nothing is before itself.
proof fn lemma_lex_lt_irreflexive(a: Seq<int>)
    ensures
        !lex_lt(a, a),
    decreases a.len(),
{
    if a.len() > 0 {
        lemma_lex_lt_irreflexive(a.drop_first());
    }
}

/// Keeping only the items a predicate holds of keeps none where it holds of none.
proof fn lemma_filter_none(s: Seq<FileEntry>, pred: spec_fn(FileEntry) -> bool)
    requires
        forall|k: int| 0 <= k < s.len() ==> !pred(#[trigger] s[k]),
    ensures
        s.filter(pred) =~= Seq::<FileEntry>::empty(),
    decreases s.len(),
{
    reveal(Seq::filter);
    if s.len() > 0 {
        assert forall|k: int| 0 <= k < s.drop_last().len() implies !pred(#[trigger] s.drop_last()[k]) by {
            assert(s.drop_last()[k] == s[k]);
        }
        lemma_filter_none(s.drop_last(), pred);
        assert(!pred(s[s.len() - 1]));
    }
}

/// The entries, ordered by section and then by path (a stable insertion
/// sort: entries in the same place keep their order).
pub fn sort_listing(entries: Vec<FileEntry>) -> (out: Vec<FileEntry>)
    ensures
        listing_sorted(out@),
        out@.to_multiset() == entries@.to_multiset(),
        forall|f: FileEntry| #[trigger] out@.filter(ties(f)) == entries@.filter(ties(f)),
{
    broadcast use {to_multiset_build, to_multiset_insert};

    let mut out: Vec<FileEntry> = Vec::new();
    assert(out@ =~= entries@.take(0));
    for i in 0..entries.len()
        invariant
            listing_sorted(out@),
            out@.to_multiset() == entries@.take(i as int).to_multiset(),
            forall|f: FileEntry| #[trigger] out@.filter(ties(f)) == entries@.take(i as int).filter(ties(f)),
    {
        let e = entries[i].clone();
        let mut p: usize = 0;
        while p < out.len() && !entry_precedes(&e, &out[p])
            invariant
                p <= out.len(),
                forall|j: int| 0 <= j < p ==> !entry_lt(e, #[trigger] out@[j]),
            decreases out.len() - p,
        {
            p = p + 1;
        }
        let ghost prev = out@;
        out.insert(p, e);
        assert forall|a: int, b: int| 0 <= a < b < out@.len() implies !entry_lt(
            #[trigger] out@[b],
            #[trigger] out@[a],
        ) by {
            if a == p as int {
                // e against a later element prev[b - 1]: e < prev[p] <= prev[b - 1]
                if b - 1 > p as int {
                    lemma_entry_lt_le(e, prev[p as int], prev[b - 1]);
                    lemma_no_lt_both(e, prev[b - 1]);
                } else {
                    lemma_no_lt_both(e, prev[p as int]);
                }
            } else if b == p as int {
            } else if a < p && b > p {
                assert(out@[b] == prev[b - 1]);
            } else if a > p {
                assert(out@[a] == prev[a - 1]);
                assert(out@[b] == prev[b - 1]);
            }
        }
        assert forall|f: FileEntry| #[trigger] out@.filter(ties(f)) == entries@.take(i + 1).filter(ties(f)) by {
            reveal_with_fuel(Seq::filter, 2);
            let pred = ties(f);
            let left = prev.take(p as int);
            let right = prev.skip(p as int);
            assert(out@ =~= left + seq![e] + right);
            assert(prev =~= left + right);
            Seq::filter_distributes_over_add(left + seq![e], right, pred);
            Seq::filter_distributes_over_add(left, seq![e], pred);
            Seq::filter_distributes_over_add(left, right, pred);
            let single = seq![e];
            assert(single.drop_last() =~= Seq::<FileEntry>::empty());
            assert(Seq::<FileEntry>::empty().filter(pred) =~= Seq::<FileEntry>::empty());
            assert(single.filter(pred) =~= if pred(e) { seq![e] } else { Seq::<FileEntry>::empty() });
            let before = entries@.take(i as int);
            let after = entries@.take(i + 1);
            assert(after.drop_last() =~= before);
            assert(after.last() == e);
            assert(after.filter(pred) == if pred(e) { before.filter(pred).push(e) } else { before.filter(pred) });
            if pred(e) {
                assert forall|k: int| 0 <= k < right.len() implies !pred(#[trigger] right[k]) by {
                    let x = right[k];
                    assert(x == prev[p + k]);
                    if k > 0 {
                        assert(!entry_lt(prev[p + k], prev[p as int]));
                        lemma_entry_lt_le(e, prev[p as int], x);
                    }
                    if pred(x) {
                        lemma_lex_lt_irreflexive(path_weights(e.path@));
                        assert(path_weights(x.path@) == path_weights(e.path@));
                    }
                }
                lemma_filter_none(right, pred);
                assert(out@.filter(pred) =~= left.filter(pred) + seq![e]);
                assert(prev.filter(pred) =~= left.filter(pred));
            } else {
                assert(out@.filter(pred) =~= left.filter(pred) + right.filter(pred));
            }
        }
        proof {
            to_multiset_insert(prev, p as int, e);
            assert(entries@.take(i + 1) =~= entries@.take(i as int).push(entries@[i as int]));
            to_multiset_build(entries@.take(i as int), entries@[i as int]);
        }
    }
    assert(entries@.take(entries.len() as int) =~= entries@);
    out
}

/// Two sequences are never each before the other.
pub proof fn lemma_lex_lt_asymmetric(a: Seq<int>, b: Seq<int>)
    requires
        lex_lt(a, b),
    ensures
        !lex_lt(b, a),
    decreases a.len(),
{
    if a.len() > 0 && b.len() > 0 && a[0] == b[0] {
        lemma_lex_lt_asymmetric(a.drop_first(), b.drop_first());
    }
}

/// Two entries are never each before the other.
pub proof fn lemma_no_lt_both(a: FileEntry, b: FileEntry)
    requires
        entry_lt(a, b),
    ensures
        !entry_lt(b, a),
{
    if section_rank(a.section) == section_rank(b.section) {
        lemma_lex_lt_asymmetric(path_weights(a.path@), path_weights(b.path@));
    }
}

} // verus!
