//! Dotted paths into the lazily evaluated tree.
//!
//! A path is an ordered sequence of string segments; the root is the path
//! with no segments.  Its rendered form joins the segments with `.`, and
//! parsing splits on `.` again, with the empty string reserved for the
//! root.  For paths whose segments are non-empty and dot-free the two are
//! inverses ([`lemma_parse_render`]).

use vstd::prelude::*;

use crate::text::clone_string_vec;

verus! {

/// A location in the tree: the segment names from the root down, in order.
#[derive(Debug)]
pub struct BrowserPath(pub Vec<String>);

impl View for BrowserPath {
    type V = Seq<Seq<char>>;

    open spec fn view(&self) -> Seq<Seq<char>> {
        self.0.deep_view()
    }
}

impl DeepView for BrowserPath {
    type V = Seq<Seq<char>>;

    open spec fn deep_view(&self) -> Seq<Seq<char>> {
        self@
    }
}

/// No character of `s` is the separator.
pub open spec fn dot_free(s: Seq<char>) -> bool {
    forall|i: int| 0 <= i < s.len() ==> s[i] != '.'
}

/// A usable segment name: non-empty and without the separator.
pub open spec fn seg_wf(s: Seq<char>) -> bool {
    s.len() > 0 && dot_free(s)
}

/// A path whose rendered form parses back to itself: every segment is
/// non-empty and dot-free.
pub open spec fn path_wf(p: Seq<Seq<char>>) -> bool {
    forall|i: int| 0 <= i < p.len() ==> seg_wf(#[trigger] p[i])
}

/// The rendered form: segments joined by `.`; the root renders as the
/// empty string.
pub open spec fn spec_render(p: Seq<Seq<char>>) -> Seq<char>
    decreases p.len(),
{
    if p.len() == 0 {
        Seq::empty()
    } else if p.len() == 1 {
        p[0]
    } else {
        p[0] + seq!['.'] + spec_render(p.drop_first())
    }
}

/// Splitting a non-empty rendered form on `.`, as `str::split` would:
/// `n` separators give `n + 1` segments, empty ones included.
pub open spec fn spec_split(s: Seq<char>) -> Seq<Seq<char>>
    decreases s.len(),
{
    if s.len() == 0 {
        seq![Seq::<char>::empty()]
    } else if s[0] == '.' {
        seq![Seq::<char>::empty()] + spec_split(s.drop_first())
    } else {
        let rest = spec_split(s.drop_first());
        rest.update(0, seq![s[0]] + rest[0])
    }
}

/// The parsed form of a rendered path: the empty string is the root
/// (no segments); anything else splits on `.`.
pub open spec fn spec_parse(s: Seq<char>) -> Seq<Seq<char>> {
    if s.len() == 0 {
        Seq::empty()
    } else {
        spec_split(s)
    }
}

proof fn lemma_split_len(s: Seq<char>)
    ensures
        spec_split(s).len() >= 1,
    decreases s.len(),
{
    if s.len() != 0 {
        lemma_split_len(s.drop_first());
    }
}

proof fn lemma_split_dot_free(s: Seq<char>)
    requires
        dot_free(s),
    ensures
        spec_split(s) == seq![s],
    decreases s.len(),
{
    if s.len() == 0 {
        assert(s =~= Seq::<char>::empty());
        assert(spec_split(s) =~= seq![s]);
    } else {
        let rest = s.drop_first();
        assert(dot_free(rest));
        lemma_split_dot_free(rest);
        assert(seq![s[0]] + rest =~= s);
        assert(spec_split(s) =~= seq![s]);
    }
}

proof fn lemma_split_concat(a: Seq<char>, t: Seq<char>)
    requires
        dot_free(a),
    ensures
        spec_split(a + seq!['.'] + t) == seq![a] + spec_split(t),
    decreases a.len(),
{
    let s = a + seq!['.'] + t;
    if a.len() == 0 {
        assert(s[0] == '.');
        assert(s.drop_first() =~= t);
        assert(a =~= Seq::<char>::empty());
        assert(spec_split(s) =~= seq![a] + spec_split(t));
    } else {
        assert(s[0] == a[0]);
        assert(s[0] != '.');
        let a1 = a.drop_first();
        assert(dot_free(a1));
        assert(s.drop_first() =~= a1 + seq!['.'] + t);
        lemma_split_concat(a1, t);
        let rest = spec_split(s.drop_first());
        assert(rest == seq![a1] + spec_split(t));
        lemma_split_len(t);
        assert(rest[0] == a1);
        assert(seq![s[0]] + a1 =~= a);
        assert(rest.update(0, seq![s[0]] + rest[0]) =~= seq![a] + spec_split(t));
    }
}

proof fn lemma_render_nonempty(p: Seq<Seq<char>>)
    requires
        path_wf(p),
        p.len() >= 1,
    ensures
        spec_render(p).len() >= 1,
{
    if p.len() == 1 {
        assert(seg_wf(p[0]));
    } else {
        assert(seg_wf(p[0]));
        assert(spec_render(p).len() >= p[0].len());
    }
}

/// Rendering and parsing are inverses on well-formed paths; in
/// particular the root renders to the empty string, which parses back
/// to the root.
pub proof fn lemma_parse_render(p: Seq<Seq<char>>)
    requires
        path_wf(p),
    ensures
        spec_parse(spec_render(p)) == p,
    decreases p.len(),
{
    if p.len() == 0 {
        assert(spec_parse(spec_render(p)) =~= p);
    } else if p.len() == 1 {
        assert(seg_wf(p[0]));
        lemma_split_dot_free(p[0]);
        assert(spec_parse(spec_render(p)) =~= p);
    } else {
        let rest = p.drop_first();
        assert(path_wf(rest)) by {
            assert(forall|i: int|
                0 <= i < rest.len() ==> #[trigger] rest[i] == p[i + 1] && seg_wf(p[i + 1]));
        }
        assert(seg_wf(p[0]));
        lemma_render_nonempty(p);
        lemma_split_concat(p[0], spec_render(rest));
        lemma_render_nonempty(rest);
        lemma_parse_render(rest);
        assert(spec_split(spec_render(rest)) == spec_parse(spec_render(rest)));
        assert(spec_parse(spec_render(p)) =~= seq![p[0]] + rest);
        assert(seq![p[0]] + rest =~= p);
    }
}

/// Appending one segment to a non-empty path appends a separator and the
/// segment to the rendered form.
proof fn lemma_render_snoc(q: Seq<Seq<char>>, x: Seq<char>)
    requires
        q.len() >= 1,
    ensures
        spec_render(q.push(x)) == spec_render(q) + seq!['.'] + x,
    decreases q.len(),
{
    if q.len() == 1 {
        assert(q.push(x).drop_first() =~= seq![x]);
        assert(spec_render(seq![x]) == x);
        assert(q.push(x)[0] == q[0]);
        assert(spec_render(q.push(x)) == q[0] + seq!['.'] + x);
        assert(spec_render(q) == q[0]);
    } else {
        let q1 = q.drop_first();
        assert(q.push(x).drop_first() =~= q1.push(x));
        lemma_render_snoc(q1, x);
        assert(spec_render(q.push(x)) == q[0] + seq!['.'] + (spec_render(q1) + seq!['.'] + x));
        assert(q[0] + seq!['.'] + (spec_render(q1) + seq!['.'] + x) =~= (q[0] + seq!['.']
            + spec_render(q1)) + seq!['.'] + x);
    }
}

/// Scans for the first separator of `s`.
fn find_dot(s: &str, len: usize) -> (r: Option<usize>)
    requires
        len == s@.len(),
    ensures
        match r {
            Some(i) => i < len && s@[i as int] == '.' && dot_free(s@.take(i as int)),
            None => dot_free(s@),
        },
{
    let mut i: usize = 0;
    while i < len
        invariant
            len == s@.len(),
            i <= len,
            forall|k: int| 0 <= k < i ==> s@[k] != '.',
        decreases len - i,
    {
        if s.get_char(i) == '.' {
            return Some(i);
        }
        i += 1;
    }
    None
}

/// Splits `s` on `.` and appends the segments to `segs`.
fn split_append(s: &str, segs: &mut Vec<String>)
    ensures
        final(segs).deep_view() == old(segs).deep_view() + spec_split(s@),
    decreases s@.len(),
{
    let len = s.unicode_len();
    match find_dot(s, len) {
        None => {
            segs.push(String::from_str(s));
            proof {
                lemma_split_dot_free(s@);
                assert(segs.deep_view() =~= old(segs).deep_view() + spec_split(s@));
            }
        },
        Some(i) => {
            let head = s.substring_char(0, i);
            segs.push(String::from_str(head));
            let tail = s.substring_char(i + 1, len);
            proof {
                assert(head@ =~= s@.take(i as int));
                assert(s@ =~= head@ + seq!['.'] + tail@);
                lemma_split_concat(head@, tail@);
            }
            split_append(tail, segs);
            proof {
                assert(segs.deep_view() =~= old(segs).deep_view() + spec_split(s@));
            }
        },
    }
}

impl BrowserPath {
    /// The path one level up, or nothing at the root.
    pub fn parent(&self) -> (r: Option<BrowserPath>)
        ensures
            match r {
                Some(p) => self@.len() > 0 && p@ == self@.drop_last(),
                None => self@.len() == 0,
            },
    {
        if self.0.len() == 0 {
            None
        } else {
            let mut segs = clone_string_vec(&self.0);
            segs.pop();
            proof {
                assert(segs.deep_view() =~= self@.drop_last());
            }
            Some(BrowserPath(segs))
        }
    }

    /// The path one level down through the child called `name`.
    pub fn child(&self, name: String) -> (r: BrowserPath)
        ensures
            r@ == self@.push(name@),
    {
        let mut segs = clone_string_vec(&self.0);
        segs.push(name);
        proof {
            assert(segs.deep_view() =~= self@.push(name@));
        }
        BrowserPath(segs)
    }

    /// Appends all of `other`'s segments below `self`.
    pub fn extend(self, other: &BrowserPath) -> (r: BrowserPath)
        ensures
            r@ == self@ + other@,
    {
        let ghost orig = self@;
        let mut segs = self.0;
        proof {
            assert(segs.deep_view() =~= orig + other@.take(0));
        }
        let mut i: usize = 0;
        while i < other.0.len()
            invariant
                i <= other.0@.len(),
                segs.deep_view() == orig + other@.take(i as int),
            decreases other.0@.len() - i,
        {
            let ghost pre = segs.deep_view();
            segs.push(other.0[i].clone());
            proof {
                assert(segs.deep_view() =~= pre.push(other@[i as int]));
                assert(pre.push(other@[i as int]) =~= orig + other@.take(i + 1));
            }
            i += 1;
        }
        proof {
            assert(orig + other@.take(other@.len() as int) =~= orig + other@);
        }
        BrowserPath(segs)
    }

    /// The dotted-expression form sent to the evaluator; the root is the
    /// empty string.
    pub fn to_expr(&self) -> (r: String)
        ensures
            r@ == spec_render(self@),
    {
        let mut out = String::new();
        let mut i: usize = 0;
        while i < self.0.len()
            invariant
                i <= self.0@.len(),
                out@ == spec_render(self@.take(i as int)),
            decreases self.0@.len() - i,
        {
            if i > 0 {
                out.push('.');
            }
            out.append(self.0[i].as_str());
            proof {
                let q = self@.take(i as int);
                let x = self@[i as int];
                assert(self@.take(i + 1) =~= q.push(x));
                if i > 0 {
                    lemma_render_snoc(q, x);
                } else {
                    assert(q.push(x) =~= seq![x]);
                }
            }
            i += 1;
        }
        proof {
            assert(self@.take(self@.len() as int) =~= self@);
        }
        out
    }

    /// Reads a dotted-expression form back into a path; the empty string
    /// is the root.
    pub fn parse(s: &str) -> (r: BrowserPath)
        ensures
            r@ == spec_parse(s@),
    {
        let len = s.unicode_len();
        let mut segs: Vec<String> = Vec::new();
        if len > 0 {
            split_append(s, &mut segs);
        }
        proof {
            if len == 0 {
                assert(segs.deep_view() =~= spec_parse(s@));
            }
        }
        BrowserPath(segs)
    }

    /// The ancestor made of the first `n` segments.
    pub fn take_prefix(&self, n: usize) -> (r: BrowserPath)
        requires
            n <= self@.len(),
        ensures
            r@ == self@.take(n as int),
    {
        let mut segs: Vec<String> = Vec::new();
        let mut i: usize = 0;
        while i < n
            invariant
                i <= n <= self.0@.len(),
                segs.deep_view() == self@.take(i as int),
            decreases n - i,
        {
            let ghost pre = segs.deep_view();
            segs.push(self.0[i].clone());
            proof {
                assert(segs.deep_view() =~= pre.push(self@[i as int]));
                assert(pre.push(self@[i as int]) =~= self@.take(i + 1));
            }
            i += 1;
        }
        BrowserPath(segs)
    }

    /// The last segment, or nothing at the root.
    pub fn last_segment(&self) -> (r: Option<&String>)
        ensures
            match r {
                Some(s) => self@.len() > 0 && s@ == self@.last(),
                None => self@.len() == 0,
            },
    {
        if self.0.len() == 0 {
            None
        } else {
            Some(&self.0[self.0.len() - 1])
        }
    }
}

impl Clone for BrowserPath {
    fn clone(&self) -> (r: Self)
        ensures
            r@ == self@,
    {
        BrowserPath(clone_string_vec(&self.0))
    }
}

impl PartialEq for BrowserPath {
    fn eq(&self, other: &Self) -> (r: bool) {
        if self.0.len() != other.0.len() {
            proof {
                assert(self@.len() != other@.len());
            }
            return false;
        }
        let mut i: usize = 0;
        while i < self.0.len()
            invariant
                self.0@.len() == other.0@.len(),
                i <= self.0@.len(),
                forall|k: int| 0 <= k < i ==> self@[k] == other@[k],
            decreases self.0@.len() - i,
        {
            if !(self.0[i] == other.0[i]) {
                proof {
                    assert(self@[i as int] != other@[i as int]);
                }
                return false;
            }
            i += 1;
        }
        proof {
            assert(self@ =~~= other@);
        }
        true
    }
}

impl vstd::std_specs::cmp::PartialEqSpecImpl for BrowserPath {
    open spec fn obeys_eq_spec() -> bool {
        true
    }

    open spec fn eq_spec(&self, other: &Self) -> bool {
        self@ == other@
    }
}

} // verus!
