//! The list-scanning algorithms behind search and tab-completion:
//! closest-match selection while typing, and wrapping forward/backward
//! scans for the next matching entry.

use vstd::prelude::*;

use crate::text::contains_seq;
use crate::text::str_contains;
use crate::text::str_starts_with;

verus! {

/// The absolute distance between two indices.
pub open spec fn spec_dist(a: int, b: int) -> int {
    if a >= b {
        a - b
    } else {
        b - a
    }
}

fn dist(a: usize, b: usize) -> (r: usize)
    ensures
        r == spec_dist(a as int, b as int),
{
    if a >= b {
        a - b
    } else {
        b - a
    }
}

/// Whether entry `item` matches the pattern: as a prefix, or anywhere as
/// a substring.
pub open spec fn item_matches(item: Seq<char>, pat: Seq<char>, by_prefix: bool) -> bool {
    if by_prefix {
        pat.is_prefix_of(item)
    } else {
        contains_seq(item, pat)
    }
}

fn entry_matches(item: &String, pat: &String, by_prefix: bool) -> (r: bool)
    ensures
        r == item_matches(item@, pat@, by_prefix),
{
    if by_prefix {
        str_starts_with(item.as_str(), pat.as_str())
    } else {
        str_contains(item.as_str(), pat.as_str())
    }
}

/// The first entry in `[from, to)` matching the pattern.
pub open spec fn first_match_in(
    list: Seq<Seq<char>>,
    pat: Seq<char>,
    by_prefix: bool,
    from: int,
    to: int,
) -> Option<int>
    decreases to - from,
{
    if from >= to {
        None
    } else if item_matches(list[from], pat, by_prefix) {
        Some(from)
    } else {
        first_match_in(list, pat, by_prefix, from + 1, to)
    }
}

/// The last entry in `[from, to)` matching the pattern.
pub open spec fn last_match_in(
    list: Seq<Seq<char>>,
    pat: Seq<char>,
    by_prefix: bool,
    from: int,
    to: int,
) -> Option<int>
    decreases to - from,
{
    if from >= to {
        None
    } else if item_matches(list[to - 1], pat, by_prefix) {
        Some(to - 1)
    } else {
        last_match_in(list, pat, by_prefix, from, to - 1)
    }
}

/// The entry a forward scan from `cursor` lands on: the first match
/// strictly after the cursor, wrapping to the start of the list.
pub open spec fn spec_scan_next(
    list: Seq<Seq<char>>,
    pat: Seq<char>,
    cursor: int,
    by_prefix: bool,
) -> Option<int> {
    match first_match_in(list, pat, by_prefix, cursor + 1, list.len() as int) {
        Some(i) => Some(i),
        None => first_match_in(list, pat, by_prefix, 0, cursor + 1),
    }
}

/// The entry a backward scan from `cursor` lands on: the last match
/// strictly before the cursor, wrapping to the end of the list.
pub open spec fn spec_scan_prev(
    list: Seq<Seq<char>>,
    pat: Seq<char>,
    cursor: int,
    by_prefix: bool,
) -> Option<int> {
    match last_match_in(list, pat, by_prefix, 0, cursor) {
        Some(i) => Some(i),
        None => last_match_in(list, pat, by_prefix, cursor, list.len() as int),
    }
}

/// What the first `j` entries contribute to the closest-match choice:
/// among the matching entries below `j`, the one nearest `pos`, ties
/// going to the entry seen first.
pub open spec fn spec_closest_upto(
    list: Seq<Seq<char>>,
    needle: Seq<char>,
    pos: int,
    j: int,
) -> Option<int>
    decreases j,
{
    if j <= 0 {
        None
    } else {
        let rest = spec_closest_upto(list, needle, pos, j - 1);
        if contains_seq(list[j - 1], needle) {
            match rest {
                None => Some(j - 1),
                Some(b) => if spec_dist(j - 1, pos) < spec_dist(b, pos) {
                    Some(j - 1)
                } else {
                    rest
                },
            }
        } else {
            rest
        }
    }
}

/// The closest-match choice over the whole list.
pub open spec fn spec_closest(list: Seq<Seq<char>>, needle: Seq<char>, pos: int) -> Option<int> {
    spec_closest_upto(list, needle, pos, list.len() as int)
}

/// What `first_match_in` returns: the least matching index of the range,
/// or nothing when the range holds no match.
pub proof fn lemma_first_match_in(
    list: Seq<Seq<char>>,
    pat: Seq<char>,
    by_prefix: bool,
    from: int,
    to: int,
)
    ensures
        match first_match_in(list, pat, by_prefix, from, to) {
            Some(i) => from <= i < to && item_matches(list[i], pat, by_prefix) && forall|j: int|
                from <= j < i ==> !item_matches(#[trigger] list[j], pat, by_prefix),
            None => forall|j: int|
                from <= j < to ==> !item_matches(#[trigger] list[j], pat, by_prefix),
        },
    decreases to - from,
{
    if from < to && !item_matches(list[from], pat, by_prefix) {
        lemma_first_match_in(list, pat, by_prefix, from + 1, to);
    }
}

/// What `last_match_in` returns: the greatest matching index of the
/// range, or nothing when the range holds no match.
pub proof fn lemma_last_match_in(
    list: Seq<Seq<char>>,
    pat: Seq<char>,
    by_prefix: bool,
    from: int,
    to: int,
)
    ensures
        match last_match_in(list, pat, by_prefix, from, to) {
            Some(i) => from <= i < to && item_matches(list[i], pat, by_prefix) && forall|j: int|
                i < j < to ==> !item_matches(#[trigger] list[j], pat, by_prefix),
            None => forall|j: int|
                from <= j < to ==> !item_matches(#[trigger] list[j], pat, by_prefix),
        },
    decreases to - from,
{
    if from < to && !item_matches(list[to - 1], pat, by_prefix) {
        lemma_last_match_in(list, pat, by_prefix, from, to - 1);
    }
}

/// Splitting a forward scan at `mid`: the first match of the whole range
/// is the first match of the left part, or else of the right part.
proof fn lemma_first_match_split(
    list: Seq<Seq<char>>,
    pat: Seq<char>,
    by_prefix: bool,
    from: int,
    mid: int,
    to: int,
)
    requires
        from <= mid <= to,
    ensures
        first_match_in(list, pat, by_prefix, from, to) == match first_match_in(
            list,
            pat,
            by_prefix,
            from,
            mid,
        ) {
            Some(i) => Some(i),
            None => first_match_in(list, pat, by_prefix, mid, to),
        },
    decreases mid - from,
{
    if from < mid && !item_matches(list[from], pat, by_prefix) {
        lemma_first_match_split(list, pat, by_prefix, from + 1, mid, to);
    }
}

/// Splitting a backward scan at `mid`: the last match of the whole range
/// is the last match of the right part, or else of the left part.
proof fn lemma_last_match_split(
    list: Seq<Seq<char>>,
    pat: Seq<char>,
    by_prefix: bool,
    from: int,
    mid: int,
    to: int,
)
    requires
        from <= mid <= to,
    ensures
        last_match_in(list, pat, by_prefix, from, to) == match last_match_in(
            list,
            pat,
            by_prefix,
            mid,
            to,
        ) {
            Some(i) => Some(i),
            None => last_match_in(list, pat, by_prefix, from, mid),
        },
    decreases to - mid,
{
    if mid < to && !item_matches(list[to - 1], pat, by_prefix) {
        lemma_last_match_split(list, pat, by_prefix, from, mid, to - 1);
    }
}

/// What the closest-match choice is: a matching entry at minimal
/// distance from `pos`, ties broken toward the entry found first in a
/// left-to-right scan; nothing exactly when no entry matches.
pub proof fn lemma_closest(list: Seq<Seq<char>>, needle: Seq<char>, pos: int)
    ensures
        match spec_closest(list, needle, pos) {
            Some(i) => 0 <= i < list.len() && contains_seq(list[i], needle) && forall|j: int|
                0 <= j < list.len() && contains_seq(#[trigger] list[j], needle) ==> spec_dist(
                    i,
                    pos,
                ) < spec_dist(j, pos) || (spec_dist(i, pos) == spec_dist(j, pos) && i <= j),
            None => forall|j: int|
                0 <= j < list.len() ==> !contains_seq(#[trigger] list[j], needle),
        },
{
    lemma_closest_upto(list, needle, pos, list.len() as int);
}

proof fn lemma_closest_upto(list: Seq<Seq<char>>, needle: Seq<char>, pos: int, u: int)
    requires
        u <= list.len(),
    ensures
        match spec_closest_upto(list, needle, pos, u) {
            Some(i) => 0 <= i < u && contains_seq(list[i], needle) && forall|j: int|
                0 <= j < u && contains_seq(#[trigger] list[j], needle) ==> spec_dist(i, pos)
                    < spec_dist(j, pos) || (spec_dist(i, pos) == spec_dist(j, pos) && i <= j),
            None => forall|j: int| 0 <= j < u ==> !contains_seq(#[trigger] list[j], needle),
        },
    decreases u,
{
    if u > 0 {
        lemma_closest_upto(list, needle, pos, u - 1);
    }
}

/// Among the entries containing `needle`, the index closest to `pos`;
/// on a distance tie the entry found first in a left-to-right scan wins.
pub fn closest_match(list: &Vec<String>, needle: &String, pos: usize) -> (r: Option<usize>)
    ensures
        match r {
            Some(i) => spec_closest(list.deep_view(), needle@, pos as int) == Some(i as int),
            None => spec_closest(list.deep_view(), needle@, pos as int) is None,
        },
{
    let ghost dv = list.deep_view();
    let mut best: Option<usize> = None;
    let mut j: usize = 0;
    while j < list.len()
        invariant
            j <= list@.len(),
            dv == list.deep_view(),
            match best {
                Some(b) => spec_closest_upto(dv, needle@, pos as int, j as int) == Some(b as int),
                None => spec_closest_upto(dv, needle@, pos as int, j as int) is None,
            },
        decreases list@.len() - j,
    {
        if str_contains(list[j].as_str(), needle.as_str()) {
            match best {
                None => {
                    best = Some(j);
                },
                Some(b) => {
                    if dist(j, pos) < dist(b, pos) {
                        best = Some(j);
                    }
                },
            }
        }
        j += 1;
    }
    best
}

/// The next matching entry after `cursor`, wrapping to the start: the
/// first match strictly after the cursor if one exists, otherwise the
/// first match anywhere up to and including the cursor.
pub fn scan_next(list: &Vec<String>, pat: &String, cursor: usize, by_prefix: bool) -> (r: Option<
    usize,
>)
    requires
        cursor < list.deep_view().len(),
    ensures
        match r {
            Some(i) => spec_scan_next(list.deep_view(), pat@, cursor as int, by_prefix) == Some(
                i as int,
            ),
            None => spec_scan_next(list.deep_view(), pat@, cursor as int, by_prefix) is None,
        },
{
    let ghost dv = list.deep_view();
    let len = list.len();
    let mut j: usize = cursor + 1;
    while j < len
        invariant
            len == list@.len(),
            dv == list.deep_view(),
            cursor < j <= len,
            first_match_in(dv, pat@, by_prefix, cursor + 1, j as int) is None,
        decreases len - j,
    {
        if entry_matches(&list[j], pat, by_prefix) {
            proof {
                assert(dv[j as int] == list@[j as int]@);
                lemma_first_match_split(dv, pat@, by_prefix, cursor + 1, j as int, len as int);
            }
            return Some(j);
        }
        proof {
            assert(dv[j as int] == list@[j as int]@);
            assert(first_match_in(dv, pat@, by_prefix, j + 1, j + 1) is None);
            lemma_first_match_split(dv, pat@, by_prefix, cursor + 1, j as int, j + 1);
        }
        j += 1;
    }
    proof {
        lemma_first_match_split(dv, pat@, by_prefix, cursor + 1, j as int, len as int);
    }
    let mut k: usize = 0;
    while k <= cursor
        invariant
            cursor < len == list@.len(),
            dv == list.deep_view(),
            k <= cursor + 1,
            first_match_in(dv, pat@, by_prefix, cursor + 1, len as int) is None,
            first_match_in(dv, pat@, by_prefix, 0, k as int) is None,
        decreases cursor - k + 1,
    {
        if entry_matches(&list[k], pat, by_prefix) {
            proof {
                lemma_first_match_split(dv, pat@, by_prefix, 0, k as int, cursor + 1);
            }
            return Some(k);
        }
        proof {
            assert(dv[k as int] == list@[k as int]@);
            assert(first_match_in(dv, pat@, by_prefix, k + 1, k + 1) is None);
            lemma_first_match_split(dv, pat@, by_prefix, 0, k as int, k + 1);
        }
        k += 1;
    }
    None
}

/// The previous matching entry before `cursor`, wrapping to the end: the
/// last match strictly before the cursor if one exists, otherwise the
/// last match anywhere from the cursor on.
pub fn scan_prev(list: &Vec<String>, pat: &String, cursor: usize, by_prefix: bool) -> (r: Option<
    usize,
>)
    requires
        cursor < list.deep_view().len(),
    ensures
        match r {
            Some(i) => spec_scan_prev(list.deep_view(), pat@, cursor as int, by_prefix) == Some(
                i as int,
            ),
            None => spec_scan_prev(list.deep_view(), pat@, cursor as int, by_prefix) is None,
        },
{
    let ghost dv = list.deep_view();
    let len = list.len();
    let mut j: usize = cursor;
    while j > 0
        invariant
            cursor < len == list@.len(),
            dv == list.deep_view(),
            j <= cursor,
            last_match_in(dv, pat@, by_prefix, j as int, cursor as int) is None,
        decreases j,
    {
        j = j - 1;
        if entry_matches(&list[j], pat, by_prefix) {
            proof {
                assert(dv[j as int] == list@[j as int]@);
                lemma_last_match_split(dv, pat@, by_prefix, j as int, j + 1, cursor as int);
                assert(last_match_in(dv, pat@, by_prefix, j as int, cursor as int) == Some(
                    j as int,
                ));
                lemma_last_match_split(dv, pat@, by_prefix, 0, j as int, cursor as int);
            }
            return Some(j);
        }
        proof {
            assert(dv[j as int] == list@[j as int]@);
            assert(last_match_in(dv, pat@, by_prefix, j as int, j as int) is None);
            lemma_last_match_split(dv, pat@, by_prefix, j as int, j + 1, cursor as int);
        }
    }
    proof {
        lemma_last_match_split(dv, pat@, by_prefix, 0, j as int, cursor as int);
    }
    let mut k: usize = len;
    while k > cursor
        invariant
            cursor < len == list@.len(),
            dv == list.deep_view(),
            cursor <= k <= len,
            last_match_in(dv, pat@, by_prefix, 0, cursor as int) is None,
            last_match_in(dv, pat@, by_prefix, k as int, len as int) is None,
        decreases k - cursor,
    {
        k = k - 1;
        if entry_matches(&list[k], pat, by_prefix) {
            proof {
                assert(dv[k as int] == list@[k as int]@);
                lemma_last_match_split(dv, pat@, by_prefix, cursor as int, k + 1, len as int);
            }
            return Some(k);
        }
        proof {
            assert(dv[k as int] == list@[k as int]@);
            assert(last_match_in(dv, pat@, by_prefix, k as int, k as int) is None);
            lemma_last_match_split(dv, pat@, by_prefix, k as int, k + 1, len as int);
        }
    }
    None
}

/// The first entry, scanning from the top, that begins with `prefix`.
pub fn first_prefix_match(list: &Vec<String>, prefix: &String) -> (r: Option<usize>)
    ensures
        match r {
            Some(i) => first_match_in(list.deep_view(), prefix@, true, 0, list.deep_view().len() as int)
                == Some(i as int),
            None => first_match_in(list.deep_view(), prefix@, true, 0, list.deep_view().len() as int)
                is None,
        },
{
    let ghost dv = list.deep_view();
    let mut j: usize = 0;
    while j < list.len()
        invariant
            j <= list@.len(),
            dv == list.deep_view(),
            first_match_in(dv, prefix@, true, 0, j as int) is None,
        decreases list@.len() - j,
    {
        if str_starts_with(list[j].as_str(), prefix.as_str()) {
            proof {
                assert(dv[j as int] == list@[j as int]@);
                lemma_first_match_split(dv, prefix@, true, 0, j as int, list@.len() as int);
            }
            return Some(j);
        }
        proof {
            assert(dv[j as int] == list@[j as int]@);
            assert(first_match_in(dv, prefix@, true, j + 1, j + 1) is None);
            lemma_first_match_split(dv, prefix@, true, 0, j as int, j + 1);
        }
        j += 1;
    }
    None
}

/// The first entry equal to `name`, scanning from the top.
pub open spec fn first_index_of(list: Seq<Seq<char>>, name: Seq<char>, from: int) -> Option<int>
    decreases list.len() - from,
{
    if from < 0 || from >= list.len() {
        None
    } else if list[from] == name {
        Some(from)
    } else {
        first_index_of(list, name, from + 1)
    }
}

/// The position of the first entry equal to `name`.
pub fn index_of_name(list: &Vec<String>, name: &String) -> (r: Option<usize>)
    ensures
        match r {
            Some(i) => first_index_of(list.deep_view(), name@, 0) == Some(i as int) && i
                < list.deep_view().len(),
            None => first_index_of(list.deep_view(), name@, 0) is None,
        },
{
    let ghost dv = list.deep_view();
    let mut j: usize = 0;
    while j < list.len()
        invariant
            j <= list@.len(),
            dv == list.deep_view(),
            forall|k: int| 0 <= k < j ==> dv[k] != name@,
        decreases list@.len() - j,
    {
        if list[j] == *name {
            proof {
                assert(dv[j as int] == list@[j as int]@);
                lemma_first_index_skip(dv, name@, 0, j as int);
            }
            return Some(j);
        }
        proof {
            assert(dv[j as int] == list@[j as int]@);
        }
        j += 1;
    }
    proof {
        lemma_first_index_skip(dv, name@, 0, j as int);
    }
    None
}

/// A scan that has seen no equal entry up to `j` continues from `j`.
proof fn lemma_first_index_skip(list: Seq<Seq<char>>, name: Seq<char>, from: int, j: int)
    requires
        0 <= from <= j <= list.len(),
        forall|k: int| from <= k < j ==> list[k] != name,
    ensures
        first_index_of(list, name, from) == first_index_of(list, name, j),
    decreases j - from,
{
    if from < j {
        lemma_first_index_skip(list, name, from + 1, j);
    }
}

} // verus!
