//! The browse-session state: the navigation stack, the path-value cache,
//! bookmarks and recents with their cursors, the three mutually exclusive
//! text-input modes, and the messages that drive the session.

use vstd::prelude::*;

use crate::cache::PathDataMap;
use crate::data::ListDataV;
use crate::data::PathData;
use crate::data::PathDataV;
use crate::data::spec_cursor_wf;
use crate::search::first_index_of;
use crate::search::index_of_name;
use crate::input::InputModelV;
use crate::input::InputState;
use crate::input::KeyEvent;
use crate::path::BrowserPath;
use crate::stack::BrowserStack;
use crate::stack::BrowserStackItem;
use crate::stack::StackItemV;

verus! {

/// Whether the session still accepts messages.  `Stopped` is the
/// terminal state: once reached, the driver drains nothing further.
#[derive(Debug, PartialEq, Eq, Structural, Clone, Copy)]
pub enum RunningState {
    Running,
    Stopped,
}

impl Default for RunningState {
    /// A session starts out running.
    fn default() -> (r: Self)
        ensures
            r == RunningState::Running,
    {
        RunningState::Running
    }
}

/// A saved target: a label to show and the path it leads to.
#[derive(Debug)]
pub struct Bookmark {
    pub display: String,
    pub path: BrowserPath,
}

/// The mathematical content of a bookmark.
#[verifier::ext_equal]
pub struct BookmarkV {
    pub display: Seq<char>,
    pub path: Seq<Seq<char>>,
}

impl View for Bookmark {
    type V = BookmarkV;

    open spec fn view(&self) -> BookmarkV {
        BookmarkV { display: self.display@, path: self.path@ }
    }
}

impl DeepView for Bookmark {
    type V = BookmarkV;

    open spec fn deep_view(&self) -> BookmarkV {
        self@
    }
}

impl Clone for Bookmark {
    fn clone(&self) -> (r: Self)
        ensures
            r@ == self@,
    {
        Bookmark { display: self.display.clone(), path: self.path.clone() }
    }
}

/// The externally persisted part of the session: the bookmark list.
#[derive(Debug)]
pub struct Config {
    pub bookmarks: Vec<Bookmark>,
}

/// The abstract commands the session consumes.  Raw device events are
/// decoded outside the core and arrive only in this form.
#[derive(Debug)]
pub enum Message {
    /// A node value arrived from the evaluator for a path.
    Data(BrowserPath, PathData),
    /// Jump directly to a path, pushing it on the stack.
    CurrentPath(BrowserPath),
    SearchEnter,
    SearchExit,
    SearchInput(KeyEvent),
    SearchNext,
    SearchPrev,
    NavigatorEnter,
    NavigatorExit,
    NavigatorInput(KeyEvent),
    NavigatorNext,
    NavigatorPrev,
    BookmarkInputEnter,
    BookmarkInputExit,
    BookmarkInput(KeyEvent),
    CreateBookmark,
    DeleteBookmark,
    Refresh,
    PageUp,
    PageDown,
    Back,
    EnterItem,
    ListUp,
    ListDown,
    Quit,
}

/// What the renderer feeds back into the session: the cell height of the
/// currently visible list, used for half-page scrolling.
#[derive(Debug, Clone, Copy)]
pub struct ViewData {
    pub current_list_height: u16,
}

impl Default for ViewData {
    /// Before the first layout no height has been reported.
    fn default() -> (r: Self)
        ensures
            r.current_list_height == 0,
    {
        ViewData { current_list_height: 0 }
    }
}

/// The number of entries of the root menu (bookmarks, recents, root).
pub open spec fn root_menu_len() -> int {
    3
}

/// The index of the root-menu entry that opens the tree root.
pub open spec fn root_menu_root_index() -> int {
    2
}

/// The mathematical content of the whole session.
#[verifier::ext_equal]
pub struct ModelV {
    pub running: RunningState,
    pub path_data: Map<Seq<Seq<char>>, PathDataV>,
    pub bookmarks: Seq<BookmarkV>,
    pub recents: Seq<Seq<Seq<char>>>,
    pub visit_stack: Seq<StackItemV>,
    pub search_input: Option<InputModelV>,
    pub path_navigator_input: Option<InputModelV>,
    pub new_bookmark_input: Option<InputModelV>,
    pub prev_tab_completion: Option<Seq<char>>,
    pub root_cursor: int,
    pub bookmark_cursor: int,
    pub recents_cursor: int,
}

/// The whole session state, owned and mutated by a single driver.
#[derive(Debug)]
pub struct Model {
    pub running_state: RunningState,
    pub path_data: PathDataMap,
    pub config: Config,
    pub recents: Vec<BrowserPath>,
    pub visit_stack: BrowserStack,
    pub search_input: InputState,
    pub path_navigator_input: InputState,
    pub new_bookmark_input: InputState,
    /// The prefix remembered across repeated Tab presses, so that
    /// completion keeps cycling through one candidate set.
    pub prev_tab_completion: Option<String>,
    pub root_view_state: usize,
    pub bookmark_view_state: usize,
    pub recents_view_state: usize,
}

impl View for Model {
    type V = ModelV;

    open spec fn view(&self) -> ModelV {
        ModelV {
            running: self.running_state,
            path_data: self.path_data@,
            bookmarks: self.config.bookmarks.deep_view(),
            recents: self.recents.deep_view(),
            visit_stack: self.visit_stack@,
            search_input: self.search_input@,
            path_navigator_input: self.path_navigator_input@,
            new_bookmark_input: self.new_bookmark_input@,
            prev_tab_completion: match &self.prev_tab_completion {
                Some(s) => Some(s@),
                None => None,
            },
            root_cursor: self.root_view_state as int,
            bookmark_cursor: self.bookmark_view_state as int,
            recents_cursor: self.recents_view_state as int,
        }
    }
}

impl Model {
    /// The structural session invariant: the stack rests on the root
    /// menu, the cache and every live input buffer are well-formed, and
    /// each view cursor points into its list.
    pub open spec fn wf(&self) -> bool {
        &&& self.visit_stack.wf()
        &&& self.path_data.wf()
        &&& self.search_input.wf()
        &&& self.path_navigator_input.wf()
        &&& self.new_bookmark_input.wf()
        &&& 0 <= self@.root_cursor < root_menu_len()
        &&& spec_cursor_wf(self@.bookmark_cursor, self@.bookmarks.len() as int)
        &&& spec_cursor_wf(self@.recents_cursor, self@.recents.len() as int)
    }

    /// A fresh session: only the root menu visited, nothing cached, no
    /// input mode live, every cursor at the top.
    pub fn new(config: Config, recents: Vec<BrowserPath>) -> (r: Model)
        ensures
            r.wf(),
            r@.running == RunningState::Running,
            r@.path_data == Map::<Seq<Seq<char>>, PathDataV>::empty(),
            r@.bookmarks == config.deep_bookmarks(),
            r@.recents == recents.deep_view(),
            r@.visit_stack =~= seq![StackItemV::Root],
            r@.search_input is None,
            r@.path_navigator_input is None,
            r@.new_bookmark_input is None,
            r@.prev_tab_completion is None,
            r@.root_cursor == 0,
            r@.bookmark_cursor == 0,
            r@.recents_cursor == 0,
    {
        Model {
            running_state: RunningState::Running,
            path_data: PathDataMap::new(),
            config,
            recents,
            visit_stack: BrowserStack::new(),
            search_input: InputState::Normal,
            path_navigator_input: InputState::Normal,
            new_bookmark_input: InputState::Normal,
            prev_tab_completion: None,
            root_view_state: 0,
            bookmark_view_state: 0,
            recents_view_state: 0,
        }
    }

    /// The bookmark under the bookmark-list cursor, if the cursor points
    /// at one.
    pub fn selected_bookmark(&self) -> (r: Option<&Bookmark>)
        ensures
            match r {
                Some(b) => self@.bookmark_cursor < self@.bookmarks.len() && b@
                    == self@.bookmarks[self@.bookmark_cursor],
                None => self@.bookmark_cursor >= self@.bookmarks.len(),
            },
    {
        if self.bookmark_view_state < self.config.bookmarks.len() {
            Some(&self.config.bookmarks[self.bookmark_view_state])
        } else {
            None
        }
    }

    /// The recent path under the recents-list cursor, if the cursor
    /// points at one.
    pub fn selected_recent(&self) -> (r: Option<&BrowserPath>)
        ensures
            match r {
                Some(p) => self@.recents_cursor < self@.recents.len() && p@
                    == self@.recents[self@.recents_cursor],
                None => self@.recents_cursor >= self@.recents.len(),
            },
    {
        if self.recents_view_state < self.recents.len() {
            Some(&self.recents[self.recents_view_state])
        } else {
            None
        }
    }
}

impl Config {
    /// The bookmark sequence a configuration denotes.
    pub open spec fn deep_bookmarks(&self) -> Seq<BookmarkV> {
        self.bookmarks.deep_view()
    }
}

/// The breadcrumb chain down to `p`: the root menu at the bottom, then
/// every ancestor of `p` from the tree root down to `p` itself.
pub open spec fn spec_stack_chain(p: Seq<Seq<char>>) -> Seq<StackItemV> {
    seq![StackItemV::Root] + Seq::new((p.len() + 1) as nat, |i: int| StackItemV::Path(p.take(i)))
}

/// The cache after aligning the cursors of the first `u` ancestors of
/// `p`: each ancestor whose list is cached and holds the next segment of
/// `p` gets its cursor moved to that segment's first occurrence.
pub open spec fn spec_align_upto(
    m: Map<Seq<Seq<char>>, PathDataV>,
    p: Seq<Seq<char>>,
    u: int,
) -> Map<Seq<Seq<char>>, PathDataV>
    decreases u,
{
    if u <= 0 {
        m
    } else {
        let prev = spec_align_upto(m, p, u - 1);
        let a = p.take(u - 1);
        let name = p[u - 1];
        if prev.contains_key(a) {
            match prev[a] {
                PathDataV::List(l) => match first_index_of(l.list, name, 0) {
                    Some(ix) => prev.insert(
                        a,
                        PathDataV::List(ListDataV { cursor: ix, list: l.list }),
                    ),
                    None => prev,
                },
                _ => prev,
            }
        } else {
            prev
        }
    }
}

impl Model {
    /// Rebuilds the breadcrumb stack as the full ancestor chain of
    /// `current_path` and, for each cached ancestor list, moves its
    /// cursor onto the segment the path descends through.
    pub fn update_parent_selection(&mut self, current_path: BrowserPath)
        requires
            old(self).wf(),
        ensures
            final(self).wf(),
            final(self)@ == (ModelV {
                visit_stack: spec_stack_chain(current_path@),
                path_data: spec_align_upto(
                    old(self)@.path_data,
                    current_path@,
                    current_path@.len() as int,
                ),
                ..old(self)@
            }),
    {
        let ghost pre = self@;
        let ghost p = current_path@;
        let n = current_path.0.len();
        let mut i: usize = 0;
        while i < n
            invariant
                n == p.len(),
                i <= n,
                p == current_path@,
                self.path_data.wf(),
                self.path_data@ == spec_align_upto(pre.path_data, p, i as int),
                self@ == (ModelV { path_data: self.path_data@, ..pre }),
            decreases n - i,
        {
            let ancestor = current_path.take_prefix(i);
            let target: Option<usize> = match self.path_data.current_list(&ancestor) {
                Some(l) => index_of_name(&l.list, &current_path.0[i]),
                None => None,
            };
            if let Some(ix) = target {
                self.path_data.set_list_cursor(&ancestor, ix);
            }
            proof {
                assert(current_path@[i as int] == current_path.0@[i as int]@);
                assert(self.path_data@ =~= spec_align_upto(pre.path_data, p, i + 1));
            }
            i += 1;
        }
        let mut items: Vec<BrowserStackItem> = Vec::new();
        items.push(BrowserStackItem::Root);
        proof {
            assert(items.deep_view() =~= seq![StackItemV::Root] + Seq::new(
                0,
                |k: int| StackItemV::Path(p.take(k)),
            ));
        }
        let mut j: usize = 0;
        while j < n
            invariant
                n == p.len(),
                p == current_path@,
                j <= n,
                items.deep_view() == seq![StackItemV::Root] + Seq::new(
                    j as nat,
                    |k: int| StackItemV::Path(p.take(k)),
                ),
            decreases n - j,
        {
            let ghost before = items.deep_view();
            items.push(BrowserStackItem::BrowserPath(current_path.take_prefix(j)));
            proof {
                assert(items.deep_view() =~= before.push(StackItemV::Path(p.take(j as int))));
                assert(before.push(StackItemV::Path(p.take(j as int))) =~= seq![StackItemV::Root]
                    + Seq::new((j + 1) as nat, |k: int| StackItemV::Path(p.take(k))));
            }
            j += 1;
        }
        let ghost before_last = items.deep_view();
        items.push(BrowserStackItem::BrowserPath(current_path.take_prefix(n)));
        proof {
            assert(items.deep_view() =~= before_last.push(StackItemV::Path(p.take(n as int))));
        }
        self.visit_stack = BrowserStack(items);
        proof {
            assert(self.visit_stack@ =~= spec_stack_chain(p));
            assert(self.visit_stack@[0] == StackItemV::Root);
        }
    }
}

/// The cursor one below `i`, wrapping from the top of a list of `len`
/// entries to its bottom; a single-entry list stays put.
pub open spec fn spec_next(i: int, len: int) -> int {
    if i >= len - 1 {
        0
    } else {
        i + 1
    }
}

/// The cursor one above `i`, wrapping from the bottom of a list of `len`
/// entries to its top; a single-entry list stays put.
pub open spec fn spec_prev(i: int, len: int) -> int {
    if i == 0 {
        len - 1
    } else {
        i - 1
    }
}

/// The next cursor position downward, with wraparound.
pub fn next(i: usize, len: usize) -> (r: usize)
    requires
        len >= 1,
    ensures
        r == spec_next(i as int, len as int),
        spec_cursor_wf(i as int, len as int) ==> spec_cursor_wf(r as int, len as int),
{
    if i >= len - 1 {
        0
    } else {
        i + 1
    }
}

/// The previous cursor position upward, with wraparound.
pub fn prev(i: usize, len: usize) -> (r: usize)
    requires
        len >= 1,
    ensures
        r == spec_prev(i as int, len as int),
        spec_cursor_wf(i as int, len as int) ==> spec_cursor_wf(r as int, len as int),
{
    if i == 0 {
        len - 1
    } else {
        i - 1
    }
}

/// Moves a view cursor one entry down, with wraparound.
pub fn select_next(cursor: &mut usize, len: usize)
    requires
        len >= 1,
    ensures
        *final(cursor) == spec_next(*old(cursor) as int, len as int),
        spec_cursor_wf(*old(cursor) as int, len as int) ==> spec_cursor_wf(
            *final(cursor) as int,
            len as int,
        ),
{
    *cursor = next(*cursor, len);
}

/// Moves a view cursor one entry up, with wraparound.
pub fn select_prev(cursor: &mut usize, len: usize)
    requires
        len >= 1,
    ensures
        *final(cursor) == spec_prev(*old(cursor) as int, len as int),
        spec_cursor_wf(*old(cursor) as int, len as int) ==> spec_cursor_wf(
            *final(cursor) as int,
            len as int,
        ),
{
    *cursor = prev(*cursor, len);
}

} // verus!
