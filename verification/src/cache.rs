//! The path-value cache: a mapping from paths to node values that only
//! ever grows.  Entries are replaced, never evicted, and replacing a list
//! by a fresh list keeps the cursor the user had on it, clamped into the
//! new list.

use vstd::prelude::*;
use vstd::pervasive::VecAdditionalExecFns;

use crate::data::ListData;
use crate::data::ListDataV;
use crate::data::PathData;
use crate::data::PathDataV;
use crate::data::path_data_wf;
use crate::data::spec_cursor_wf;
use crate::path::BrowserPath;

verus! {

/// The cursor an incoming list keeps: the stored one, clamped into the
/// new list (or zero when the new list is empty).
pub open spec fn spec_clamp(cursor: int, len: int) -> int {
    if len == 0 {
        0
    } else if cursor < len {
        cursor
    } else {
        len - 1
    }
}

/// What `insert_or_merge` stores: when a cached list is replaced by a new
/// list, the new child names with the old cursor clamped in; in every
/// other case the incoming value, wholesale.
pub open spec fn spec_merge(stored: Option<PathDataV>, incoming: PathDataV) -> PathDataV {
    match (stored, incoming) {
        (Some(PathDataV::List(ol)), PathDataV::List(nl)) => PathDataV::List(
            ListDataV { cursor: spec_clamp(ol.cursor, nl.list.len() as int), list: nl.list },
        ),
        (_, v) => v,
    }
}

/// The map a sequence of entries denotes, later entries winning.
pub open spec fn map_of(s: Seq<(BrowserPath, PathData)>) -> Map<Seq<Seq<char>>, PathDataV>
    decreases s.len(),
{
    if s.len() == 0 {
        Map::empty()
    } else {
        map_of(s.drop_last()).insert(s.last().0@, s.last().1@)
    }
}

/// The mapping from paths to their cached node values.
#[derive(Debug)]
pub struct PathDataMap {
    entries: Vec<(BrowserPath, PathData)>,
}

impl View for PathDataMap {
    type V = Map<Seq<Seq<char>>, PathDataV>;

    closed spec fn view(&self) -> Map<Seq<Seq<char>>, PathDataV> {
        map_of(self.entries@)
    }
}

proof fn lemma_map_of_contains(s: Seq<(BrowserPath, PathData)>, k: Seq<Seq<char>>)
    ensures
        map_of(s).contains_key(k) <==> exists|i: int| 0 <= i < s.len() && s[i].0@ == k,
    decreases s.len(),
{
    if s.len() > 0 {
        lemma_map_of_contains(s.drop_last(), k);
        if s.last().0@ == k {
            assert(s[s.len() - 1].0@ == k);
        } else if map_of(s).contains_key(k) {
            let i = choose|i: int| 0 <= i < s.drop_last().len() && s.drop_last()[i].0@ == k;
            assert(s[i].0@ == k);
        } else {
            assert forall|i: int| 0 <= i < s.len() implies s[i].0@ != k by {
                if i < s.len() - 1 {
                    assert(s.drop_last()[i].0@ == s[i].0@);
                }
            }
        }
    }
}

proof fn lemma_map_of_index(s: Seq<(BrowserPath, PathData)>, i: int)
    requires
        forall|a: int, b: int| 0 <= a < b < s.len() ==> s[a].0@ != s[b].0@,
        0 <= i < s.len(),
    ensures
        map_of(s).contains_key(s[i].0@),
        map_of(s)[s[i].0@] == s[i].1@,
    decreases s.len(),
{
    if i == s.len() - 1 {
    } else {
        let t = s.drop_last();
        assert(t[i] == s[i]);
        lemma_map_of_index(t, i);
        assert(s.last().0@ != s[i].0@);
    }
}

proof fn lemma_map_of_update(s: Seq<(BrowserPath, PathData)>, i: int, e: (BrowserPath, PathData))
    requires
        forall|a: int, b: int| 0 <= a < b < s.len() ==> s[a].0@ != s[b].0@,
        0 <= i < s.len(),
        e.0@ == s[i].0@,
    ensures
        map_of(s.update(i, e)) == map_of(s).insert(e.0@, e.1@),
    decreases s.len(),
{
    let u = s.update(i, e);
    if i == s.len() - 1 {
        assert(u.drop_last() =~= s.drop_last());
        assert(u.last() == e);
        assert(map_of(u) =~= map_of(s).insert(e.0@, e.1@));
    } else {
        let t = s.drop_last();
        assert(t[i] == s[i]);
        lemma_map_of_update(t, i, e);
        assert(u.drop_last() =~= t.update(i, e));
        assert(u.last() == s.last());
        assert(s.last().0@ != e.0@);
        assert(map_of(u) == map_of(t).insert(e.0@, e.1@).insert(s.last().0@, s.last().1@));
        assert(map_of(t).insert(e.0@, e.1@).insert(s.last().0@, s.last().1@) =~= map_of(t).insert(
            s.last().0@,
            s.last().1@,
        ).insert(e.0@, e.1@));
    }
}

impl PathDataMap {
    /// Keys are distinct and every stored list keeps a valid cursor.
    pub closed spec fn wf(&self) -> bool {
        &&& forall|a: int, b: int|
            0 <= a < b < self.entries@.len() ==> self.entries@[a].0@ != self.entries@[b].0@
        &&& forall|i: int|
            0 <= i < self.entries@.len() ==> path_data_wf(#[trigger] self.entries@[i].1@)
    }

    /// Every stored value of a well-formed cache is well-formed.
    pub proof fn lemma_wf_values(&self, k: Seq<Seq<char>>)
        requires
            self.wf(),
            self@.contains_key(k),
        ensures
            path_data_wf(self@[k]),
    {
        lemma_map_of_contains(self.entries@, k);
        let i = choose|i: int| 0 <= i < self.entries@.len() && self.entries@[i].0@ == k;
        lemma_map_of_index(self.entries@, i);
    }

    /// An empty cache.
    pub fn new() -> (r: PathDataMap)
        ensures
            r@ == Map::<Seq<Seq<char>>, PathDataV>::empty(),
            r.wf(),
    {
        PathDataMap { entries: Vec::new() }
    }

    fn idx_of(&self, path: &BrowserPath) -> (r: Option<usize>)
        ensures
            match r {
                Some(i) => i < self.entries@.len() && self.entries@[i as int].0@ == path@,
                None => forall|i: int| 0 <= i < self.entries@.len() ==> self.entries@[i].0@ != path@,
            },
    {
        let mut i: usize = 0;
        while i < self.entries.len()
            invariant
                i <= self.entries@.len(),
                forall|k: int| 0 <= k < i ==> self.entries@[k].0@ != path@,
            decreases self.entries@.len() - i,
        {
            if &self.entries[i].0 == path {
                return Some(i);
            }
            i += 1;
        }
        None
    }

    /// Whether the cache has an entry for `path`.
    pub fn contains(&self, path: &BrowserPath) -> (r: bool)
        ensures
            r == self@.contains_key(path@),
    {
        proof {
            lemma_map_of_contains(self.entries@, path@);
        }
        self.idx_of(path).is_some()
    }

    /// The cached value for `path`, if any.
    pub fn get(&self, path: &BrowserPath) -> (r: Option<&PathData>)
        requires
            self.wf(),
        ensures
            match r {
                Some(d) => self@.contains_key(path@) && d@ == self@[path@],
                None => !self@.contains_key(path@),
            },
    {
        proof {
            lemma_map_of_contains(self.entries@, path@);
        }
        match self.idx_of(path) {
            Some(i) => {
                proof {
                    lemma_map_of_index(self.entries@, i as int);
                }
                Some(&self.entries[i].1)
            },
            None => None,
        }
    }

    /// Stores an incoming value for `path`: a list replacing a list keeps
    /// the clamped cursor, anything else overwrites the entry wholesale.
    pub fn insert_or_merge(&mut self, path: BrowserPath, value: PathData)
        requires
            old(self).wf(),
            path_data_wf(value@),
        ensures
            final(self).wf(),
            final(self)@ == old(self)@.insert(
                path@,
                spec_merge(
                    if old(self)@.contains_key(path@) {
                        Some(old(self)@[path@])
                    } else {
                        None
                    },
                    value@,
                ),
            ),
    {
        proof {
            lemma_map_of_contains(self.entries@, path@);
        }
        match self.idx_of(&path) {
            Some(i) => {
                proof {
                    lemma_map_of_index(self.entries@, i as int);
                }
                let merged = match (&self.entries[i].1, value) {
                    (PathData::List(stored), PathData::List(incoming)) => {
                        let new_len = incoming.list.len();
                        let cursor = if new_len == 0 {
                            0
                        } else if stored.cursor < new_len {
                            stored.cursor
                        } else {
                            new_len - 1
                        };
                        PathData::List(ListData { cursor, list: incoming.list })
                    },
                    (_, v) => v,
                };
                let ghost pre = self.entries@;
                self.entries.set(i, (path, merged));
                proof {
                    lemma_map_of_update(pre, i as int, self.entries@[i as int]);
                    assert forall|a: int, b: int|
                        0 <= a < b < self.entries@.len() implies self.entries@[a].0@
                        != self.entries@[b].0@ by {
                        assert(pre[a].0@ == self.entries@[a].0@);
                        assert(pre[b].0@ == self.entries@[b].0@);
                    }
                }
            },
            None => {
                let ghost pre = self.entries@;
                self.entries.push((path, value));
                proof {
                    assert(self.entries@.drop_last() =~= pre);
                    assert(self.entries@.last() == (self.entries@[pre.len() as int]));
                }
            },
        }
    }

    /// The current list at `path`: its child names and cursor, if the
    /// cache holds a list there.
    pub fn current_list(&self, path: &BrowserPath) -> (r: Option<&ListData>)
        requires
            self.wf(),
        ensures
            match r {
                Some(l) => self@.contains_key(path@) && self@[path@] == PathDataV::List(l@)
                    && spec_cursor_wf(l@.cursor, l@.list.len() as int),
                None => !self@.contains_key(path@) || !(self@[path@] is List),
            },
    {
        proof {
            if self@.contains_key(path@) {
                self.lemma_wf_values(path@);
            }
        }
        match self.get(path) {
            Some(PathData::List(l)) => Some(l),
            _ => None,
        }
    }

    /// The path of the entry selected in the list at `path`, if the cache
    /// holds a non-empty list there.
    pub fn selected_child(&self, path: &BrowserPath) -> (r: Option<BrowserPath>)
        requires
            self.wf(),
        ensures
            match r {
                Some(c) => self@.contains_key(path@) && (self@[path@] matches PathDataV::List(l)
                    && l.cursor < l.list.len() && c@ == path@.push(l.list[l.cursor])),
                None => !self@.contains_key(path@) || !(self@[path@] is List) || (self@[path@]
                    matches PathDataV::List(l) && l.list.len() == 0),
            },
    {
        match self.current_list(path) {
            Some(l) => l.selected(path),
            None => None,
        }
    }

    /// The number of children of the list stored at `k`, or zero when no
    /// list is stored there.
    pub open spec fn spec_list_len(m: Map<Seq<Seq<char>>, PathDataV>, k: Seq<Seq<char>>) -> int {
        match m[k] {
            PathDataV::List(l) => l.list.len() as int,
            _ => 0,
        }
    }

    /// Moves the cursor of the list stored at `path`, leaving its child
    /// names alone.
    pub fn set_list_cursor(&mut self, path: &BrowserPath, cursor: usize)
        requires
            old(self).wf(),
            old(self)@.contains_key(path@),
            old(self)@[path@] is List,
            spec_cursor_wf(cursor as int, Self::spec_list_len(old(self)@, path@)),
        ensures
            final(self).wf(),
            old(self)@[path@] matches PathDataV::List(l) ==> final(self)@ == old(self)@.insert(
                path@,
                PathDataV::List(ListDataV { cursor: cursor as int, list: l.list }),
            ),
    {
        proof {
            lemma_map_of_contains(self.entries@, path@);
        }
        match self.idx_of(path) {
            Some(i) => {
                proof {
                    lemma_map_of_index(self.entries@, i as int);
                }
                let ghost pre = self.entries@;
                let pair = self.entries.remove(i);
                match pair {
                    (k, PathData::List(ld)) => {
                        self.entries.insert(i, (k, PathData::List(ListData { cursor, list: ld.list })));
                        proof {
                            assert(self.entries@ =~= pre.update(i as int, self.entries@[i as int]));
                            lemma_map_of_update(pre, i as int, self.entries@[i as int]);
                            assert forall|a: int, b: int|
                                0 <= a < b < self.entries@.len() implies self.entries@[a].0@
                                != self.entries@[b].0@ by {
                                assert(pre[a].0@ == self.entries@[a].0@);
                                assert(pre[b].0@ == self.entries@[b].0@);
                            }
                        }
                    },
                    _ => {
                        proof {
                            assert(false);
                        }
                    },
                }
            },
            None => {
                proof {
                    assert(false);
                }
            },
        }
    }
}

/// Cache-merge law: merging the same list value in twice leaves the entry
/// exactly where the first merge put it; in particular the cursor does
/// not move.
pub proof fn lemma_merge_idempotent(
    m: Map<Seq<Seq<char>>, PathDataV>,
    k: Seq<Seq<char>>,
    incoming: PathDataV,
)
    requires
        incoming is List,
        path_data_wf(incoming),
    ensures
        ({
            let once = m.insert(
                k,
                spec_merge(
                    if m.contains_key(k) {
                        Some(m[k])
                    } else {
                        None
                    },
                    incoming,
                ),
            );
            once.insert(k, spec_merge(Some(once[k]), incoming)) == once
        }),
{
    let once = m.insert(
        k,
        spec_merge(
            if m.contains_key(k) {
                Some(m[k])
            } else {
                None
            },
            incoming,
        ),
    );
    assert(once.insert(k, spec_merge(Some(once[k]), incoming)) =~= once);
}

/// Cache-merge law: a list refresh with fewer children than the stored
/// cursor clamps the cursor to the last entry of the new list.
pub proof fn lemma_merge_clamps(stored: ListDataV, incoming: ListDataV)
    requires
        0 < incoming.list.len() <= stored.cursor,
    ensures
        spec_merge(Some(PathDataV::List(stored)), PathDataV::List(incoming)) == PathDataV::List(
            ListDataV { cursor: incoming.list.len() - 1, list: incoming.list },
        ),
{
}

} // verus!
