//! File-name search: which entries a query matches, and where a search
//! starts from.
use vstd::prelude::*;

use crate::git::FileEntry;
use crate::text::{
    chars_of, is_uppercase, lowercase, seq_contains, text_contains, to_lowercase, uppercase_char,
};

verus! {

/// A query without uppercase letters searches case-insensitively ("smart case").
pub open spec fn smart_lower(q: Seq<char>) -> bool {
    forall|i: int| 0 <= i < q.len() ==> !uppercase_char(#[trigger] q[i])
}

/// The text compared: lowercased when the search is case-insensitive.
pub open spec fn folded(s: Seq<char>, lower: bool) -> Seq<char> {
    if lower {
        lowercase(s)
    } else {
        s
    }
}

/// The positions, in increasing order, of the texts that contain `needle`.
pub open spec fn containing_positions(hays: Seq<Seq<char>>, needle: Seq<char>) -> Seq<usize>
    decreases hays.len(),
{
    if hays.len() == 0 {
        seq![]
    } else {
        containing_positions(hays.drop_last(), needle) + if seq_contains(hays.last(), needle) {
            seq![(hays.len() - 1) as usize]
        } else {
            seq![]
        }
    }
}

/// The indices of the entries whose path the query `q` matches, in list order.
pub open spec fn match_order(files: Seq<FileEntry>, q: Seq<char>) -> Seq<usize> {
    containing_positions(
        files.map_values(|f: FileEntry| folded(f.path@, smart_lower(q))),
        folded(q, smart_lower(q)),
    )
}

/// Strictly increasing and below `n`.
pub open spec fn increasing_below(s: Seq<usize>, n: int) -> bool {
    &&& forall|i: int, j: int| 0 <= i < j < s.len() ==> s[i] < s[j]
    &&& forall|i: int| 0 <= i < s.len() ==> s[i] < n
}

/// The positions found are increasing and within the list.
pub proof fn lemma_positions_increasing(hays: Seq<Seq<char>>, needle: Seq<char>)
    requires
        hays.len() <= usize::MAX,
    ensures
        increasing_below(containing_positions(hays, needle), hays.len() as int),
    decreases hays.len(),
{
    if hays.len() > 0 {
        lemma_positions_increasing(hays.drop_last(), needle);
    }
}

/// The positions of the texts in `hays` that contain `needle`.
pub fn positions_containing(hays: &Vec<String>, needle: &str) -> (r: Vec<usize>)
    ensures
        r@ == containing_positions(hays@.map_values(|h: String| h@), needle@),
        increasing_below(r@, hays@.len() as int),
{
    let ghost hs = hays@.map_values(|h: String| h@);
    let mut r: Vec<usize> = Vec::new();
    for i in 0..hays.len()
        invariant
            hs == hays@.map_values(|h: String| h@),
            r@ == containing_positions(hs.take(i as int), needle@),
    {
        let ghost before = r@;
        assert(hs.take(i + 1).drop_last() =~= hs.take(i as int));
        assert(hs.take(i + 1).last() == hays@[i as int]@);
        if text_contains(hays[i].as_str(), needle) {
            r.push(i);
            assert(r@ =~= before + seq![i]);
        } else {
            assert(r@ =~= before + seq![]);
        }
    }
    assert(hs.take(hays.len() as int) =~= hs);
    proof {
        lemma_positions_increasing(hs, needle@);
    }
    r
}

/// Whether the query has no uppercase character.
pub fn is_smart_lower(query: &str) -> (r: bool)
    ensures
        r == smart_lower(query@),
{
    let q = chars_of(query);
    for i in 0..q.len()
        invariant
            q@ == query@,
            forall|k: int| 0 <= k < i ==> !uppercase_char(#[trigger] q@[k]),
    {
        if is_uppercase(q[i]) {
            return false;
        }
    }
    true
}

/// The indices of the entries whose path matches `query`: a substring
/// search, case-insensitive unless the query has an uppercase letter.
pub fn find_file_matches(files: &Vec<FileEntry>, query: &str) -> (r: Vec<usize>)
    ensures
        r@ == match_order(files@, query@),
        increasing_below(r@, files@.len() as int),
{
    let lower = is_smart_lower(query);
    let needle = if lower {
        to_lowercase(query)
    } else {
        String::from_str(query)
    };
    let mut hays: Vec<String> = Vec::new();
    for i in 0..files.len()
        invariant
            hays@.len() == i,
            forall|k: int|
                0 <= k < i ==> (#[trigger] hays@[k])@ == folded(files@[k].path@, lower),
    {
        let h = if lower {
            to_lowercase(files[i].path.as_str())
        } else {
            files[i].path.clone()
        };
        hays.push(h);
    }
    let r = positions_containing(&hays, needle.as_str());
    assert(hays@.map_values(|h: String| h@) =~= files@.map_values(
        |f: FileEntry| folded(f.path@, smart_lower(query@)),
    ));
    r
}

/// The first position at or after `from` whose index is at least `cur`.
pub open spec fn index_at_least(order: Seq<usize>, cur: usize, from: int) -> Option<int>
    decreases order.len() - from,
{
    if from < 0 || from >= order.len() {
        None
    } else if order[from] >= cur {
        Some(from)
    } else {
        index_at_least(order, cur, from + 1)
    }
}

/// Where a search starts: the first match at or after the selection, or the
/// first match when all are before it.
pub open spec fn next_match_index(order: Seq<usize>, cur: usize) -> int {
    match index_at_least(order, cur, 0) {
        Some(i) => i,
        None => 0,
    }
}

/// The position in `order` of the first index that is at least `current`, or 0.
pub fn next_match_from(order: &Vec<usize>, current: usize) -> (r: usize)
    ensures
        r == next_match_index(order@, current),
{
    let mut i: usize = 0;
    while i < order.len()
        invariant
            i <= order.len(),
            index_at_least(order@, current, 0) == index_at_least(order@, current, i as int),
        decreases order.len() - i,
    {
        if order[i] >= current {
            return i;
        }
        i = i + 1;
    }
    0
}

/// The first position at or after `from` that holds `x`.
pub open spec fn index_of_from(order: Seq<usize>, x: usize, from: int) -> Option<int>
    decreases order.len() - from,
{
    if from < 0 || from >= order.len() {
        None
    } else if order[from] == x {
        Some(from)
    } else {
        index_of_from(order, x, from + 1)
    }
}

/// The position of `x` in `order`, or 0 when it is not there.
pub open spec fn position_or_first(order: Seq<usize>, x: usize) -> int {
    match index_of_from(order, x, 0) {
        Some(i) => i,
        None => 0,
    }
}

/// The position of `x` in `order`, or 0 when it is not there.
pub fn position_of(order: &Vec<usize>, x: usize) -> (r: usize)
    ensures
        r == position_or_first(order@, x),
{
    let mut i: usize = 0;
    while i < order.len()
        invariant
            i <= order.len(),
            index_of_from(order@, x, 0) == index_of_from(order@, x, i as int),
        decreases order.len() - i,
    {
        if order[i] == x {
            return i;
        }
        i = i + 1;
    }
    0
}

/// A found position is within the sequence.
pub proof fn lemma_index_at_least_in_range(order: Seq<usize>, cur: usize, from: int)
    requires
        0 <= from,
    ensures
        index_at_least(order, cur, from) matches Some(i) ==> from <= i < order.len() && order[i]
            >= cur,
    decreases order.len() - from,
{
    if from < order.len() && order[from] < cur {
        lemma_index_at_least_in_range(order, cur, from + 1);
    }
}

/// A found position is within the sequence.
pub proof fn lemma_index_of_in_range(order: Seq<usize>, x: usize, from: int)
    requires
        0 <= from,
    ensures
        index_of_from(order, x, from) matches Some(i) ==> from <= i < order.len() && order[i]
            == x,
    decreases order.len() - from,
{
    if from < order.len() && order[from] != x {
        lemma_index_of_in_range(order, x, from + 1);
    }
}

} // verus!
