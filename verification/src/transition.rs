//! The session transition relation: for every message, what the next
//! session state is, which paths the reevaluation policy fetches, when
//! the bookmark store is rewritten, and which follow-up message the
//! driver processes next.  `update` in the neighbouring module is proved
//! against these functions.

use vstd::prelude::*;

use crate::cache::spec_clamp;
use crate::cache::spec_merge;
use crate::data::ListDataV;
use crate::data::PathDataV;
use crate::input::InputModel;
use crate::input::InputModelV;
use crate::input::KeyCode;
use crate::input::KeyEvent;
use crate::model::ModelV;
use crate::model::Message;
use crate::model::RunningState;
use crate::model::root_menu_root_index;
use crate::model::spec_align_upto;
use crate::model::spec_next;
use crate::model::spec_prev;
use crate::model::spec_stack_chain;
use crate::model::BookmarkV;
use crate::path::spec_parse;
use crate::path::spec_render;
use crate::search::first_match_in;
use crate::search::spec_closest;
use crate::search::spec_scan_next;
use crate::search::spec_scan_prev;
use crate::stack::StackItemV;

verus! {

/// The stored value for a key, if the cache holds one.
pub open spec fn spec_stored(
    pd: Map<Seq<Seq<char>>, PathDataV>,
    k: Seq<Seq<char>>,
) -> Option<PathDataV> {
    if pd.contains_key(k) {
        Some(pd[k])
    } else {
        None
    }
}

/// The current path and its cached list, when the top of the stack is a
/// path whose cache entry is a list.
pub open spec fn spec_top_list(m: ModelV) -> Option<(Seq<Seq<char>>, ListDataV)>
    recommends
        m.visit_stack.len() >= 1,
{
    match m.visit_stack.last() {
        StackItemV::Path(p) => match spec_stored(m.path_data, p) {
            Some(PathDataV::List(l)) => Some((p, l)),
            _ => None,
        },
        _ => None,
    }
}

/// The cache after moving the cursor of the list at `p` to `c`.
pub open spec fn spec_with_cursor(
    pd: Map<Seq<Seq<char>>, PathDataV>,
    p: Seq<Seq<char>>,
    l: ListDataV,
    c: int,
) -> Map<Seq<Seq<char>>, PathDataV> {
    pd.insert(p, PathDataV::List(ListDataV { cursor: c, list: l.list }))
}

/// Half the reported list height, at least one row tall.
pub open spec fn spec_half_page(h: u16) -> int {
    (if h >= 1 {
        h as int
    } else {
        1
    }) / 2
}

/// One fetch request, made only when the cache lacks the path.
pub open spec fn fetch_if_absent(
    pd: Map<Seq<Seq<char>>, PathDataV>,
    p: Seq<Seq<char>>,
) -> Seq<Seq<Seq<char>>> {
    if pd.contains_key(p) {
        Seq::empty()
    } else {
        seq![p]
    }
}

/// The fetch of the selected child of the list at `p`, when that list is
/// cached, non-empty and its child is absent from the cache.
pub open spec fn spec_policy_child(
    pd: Map<Seq<Seq<char>>, PathDataV>,
    p: Seq<Seq<char>>,
) -> Seq<Seq<Seq<char>>> {
    match spec_stored(pd, p) {
        Some(PathDataV::List(l)) => if l.cursor < l.list.len() {
            fetch_if_absent(pd, p.push(l.list[l.cursor]))
        } else {
            Seq::empty()
        },
        _ => Seq::empty(),
    }
}

/// What the policy fetches for one location: a path and its selected
/// child, the selected bookmark's target, the selected recent, or the
/// tree root when the root menu rests on its root entry.
pub open spec fn spec_policy_loc(m: ModelV, loc: StackItemV) -> Seq<Seq<Seq<char>>> {
    match loc {
        StackItemV::Path(p) => fetch_if_absent(m.path_data, p) + spec_policy_child(m.path_data, p),
        StackItemV::Bookmarks => if m.bookmark_cursor < m.bookmarks.len() {
            fetch_if_absent(m.path_data, m.bookmarks[m.bookmark_cursor].path)
        } else {
            Seq::empty()
        },
        StackItemV::Recents => if m.recents_cursor < m.recents.len() {
            fetch_if_absent(m.path_data, m.recents[m.recents_cursor])
        } else {
            Seq::empty()
        },
        StackItemV::Root => if m.root_cursor == root_menu_root_index() {
            fetch_if_absent(m.path_data, Seq::empty())
        } else {
            Seq::empty()
        },
    }
}

/// The fetch of the parent-context path: the entry one below the top of
/// the stack, when it is a path absent from the cache.
pub open spec fn spec_policy_parent(m: ModelV) -> Seq<Seq<Seq<char>>> {
    if m.visit_stack.len() >= 2 {
        match m.visit_stack[m.visit_stack.len() - 2] {
            StackItemV::Path(q) => fetch_if_absent(m.path_data, q),
            _ => Seq::empty(),
        }
    } else {
        Seq::empty()
    }
}

/// The whole reevaluation policy, run after a message is applied: the
/// top-of-stack rules, then the parent-context rule.
pub open spec fn spec_policy(m: ModelV) -> Seq<Seq<Seq<char>>>
    recommends
        m.visit_stack.len() >= 1,
{
    spec_policy_loc(m, m.visit_stack.last()) + spec_policy_parent(m)
}

/// What a forced refresh fetches, bypassing the absence guard: the
/// current path, its selected child, and the parent-context path.
pub open spec fn spec_refresh_targets(m: ModelV) -> Seq<Seq<Seq<char>>>
    recommends
        m.visit_stack.len() >= 1,
{
    (match m.visit_stack.last() {
        StackItemV::Path(p) => seq![p] + (match spec_stored(m.path_data, p) {
            Some(PathDataV::List(l)) => if l.cursor < l.list.len() {
                seq![p.push(l.list[l.cursor])]
            } else {
                Seq::empty()
            },
            _ => Seq::empty(),
        }),
        _ => Seq::empty(),
    }) + (if m.visit_stack.len() >= 2 {
        match m.visit_stack[m.visit_stack.len() - 2] {
            StackItemV::Path(q) => seq![q],
            _ => Seq::empty(),
        }
    } else {
        Seq::empty()
    })
}

/// Whether this message rewrites the bookmark store: creating a bookmark
/// while naming one at a concrete path, or deleting the selected one.
pub open spec fn spec_saves(m: ModelV, msg: Message) -> bool {
    match msg {
        Message::CreateBookmark => m.visit_stack.len() >= 1 && m.visit_stack.last() is Path
            && m.new_bookmark_input is Some,
        Message::DeleteBookmark => m.bookmark_cursor < m.bookmarks.len(),
        _ => false,
    }
}

/// The follow-up message a handler asks the driver to process next:
/// Escape in a search or navigator buffer turns into the mode's exit.
pub open spec fn spec_follow(m: ModelV, msg: Message) -> Option<Message> {
    match msg {
        Message::SearchInput(k) => if m.search_input is Some && k.code is Esc {
            Some(Message::SearchExit)
        } else {
            None
        },
        Message::NavigatorInput(k) => if m.path_navigator_input is Some && k.code is Esc {
            Some(Message::NavigatorExit)
        } else {
            None
        },
        _ => None,
    }
}

/// A freshly opened, still-typing buffer holding `text` with the cursor
/// at its end.
pub open spec fn spec_fresh_buffer(text: Seq<char>) -> InputModelV {
    InputModelV { typing: true, input: text, cursor: text.len() as int }
}

/// The navigator seed: the rendered current path with a trailing
/// separator (empty at the tree root), or a conventional starting point
/// when the breadcrumb is not a concrete path.
pub open spec fn spec_nav_seed(m: ModelV) -> Seq<char>
    recommends
        m.visit_stack.len() >= 1,
{
    match m.visit_stack.last() {
        StackItemV::Path(p) => if p.len() > 0 {
            spec_render(p).push('.')
        } else {
            Seq::empty()
        },
        _ => "nixosConfigurations."@,
    }
}

/// The bookmark-name seed: the name of the selected child of the current
/// list, or empty.
pub open spec fn spec_bookmark_seed(m: ModelV) -> Seq<char> {
    match spec_top_list(m) {
        Some((p, l)) => if l.cursor < l.list.len() {
            l.list[l.cursor]
        } else {
            Seq::empty()
        },
        None => Seq::empty(),
    }
}

/// A cursor move on whichever list is topmost, wrapping at the ends;
/// empty lists stay put.
pub open spec fn spec_list_move(m: ModelV, down: bool) -> ModelV
    recommends
        m.visit_stack.len() >= 1,
{
    let step = |c: int, len: int|
        if down {
            spec_next(c, len)
        } else {
            spec_prev(c, len)
        };
    match m.visit_stack.last() {
        StackItemV::Root => ModelV { root_cursor: step(m.root_cursor, 3), ..m },
        StackItemV::Path(p) => match spec_stored(m.path_data, p) {
            Some(PathDataV::List(l)) => if l.list.len() > 0 {
                ModelV {
                    path_data: spec_with_cursor(
                        m.path_data,
                        p,
                        l,
                        step(l.cursor, l.list.len() as int),
                    ),
                    ..m
                }
            } else {
                m
            },
            _ => m,
        },
        StackItemV::Bookmarks => if m.bookmarks.len() > 0 {
            ModelV { bookmark_cursor: step(m.bookmark_cursor, m.bookmarks.len() as int), ..m }
        } else {
            m
        },
        StackItemV::Recents => if m.recents.len() > 0 {
            ModelV { recents_cursor: step(m.recents_cursor, m.recents.len() as int), ..m }
        } else {
            m
        },
    }
}

/// A half-page cursor move on the current list, clamped at the ends;
/// an absent or empty list stays put.
pub open spec fn spec_page(m: ModelV, h: u16, down: bool) -> ModelV
    recommends
        m.visit_stack.len() >= 1,
{
    match spec_top_list(m) {
        Some((p, l)) => if l.list.len() > 0 {
            let delta = spec_half_page(h);
            let c2 = if down {
                if l.cursor + delta < l.list.len() {
                    l.cursor + delta
                } else {
                    l.list.len() - 1
                }
            } else {
                if l.cursor >= delta {
                    l.cursor - delta
                } else {
                    0
                }
            };
            ModelV { path_data: spec_with_cursor(m.path_data, p, l, c2), ..m }
        } else {
            m
        },
        None => m,
    }
}

/// Entering the selected item: a root-menu entry opens bookmarks,
/// recents or the tree root; a path descends into its selected child; a
/// bookmark or recent jumps to its target.
pub open spec fn spec_enter_item(m: ModelV) -> ModelV
    recommends
        m.visit_stack.len() >= 1,
{
    match m.visit_stack.last() {
        StackItemV::Root => if m.root_cursor == 0 {
            ModelV { visit_stack: m.visit_stack.push(StackItemV::Bookmarks), ..m }
        } else if m.root_cursor == 1 {
            ModelV { visit_stack: m.visit_stack.push(StackItemV::Recents), ..m }
        } else {
            ModelV { visit_stack: m.visit_stack.push(StackItemV::Path(Seq::empty())), ..m }
        },
        StackItemV::Path(p) => match spec_stored(m.path_data, p) {
            Some(PathDataV::List(l)) => if l.cursor < l.list.len() {
                ModelV {
                    visit_stack: m.visit_stack.push(StackItemV::Path(p.push(l.list[l.cursor]))),
                    ..m
                }
            } else {
                m
            },
            _ => m,
        },
        StackItemV::Bookmarks => if m.bookmark_cursor < m.bookmarks.len() {
            ModelV {
                visit_stack: m.visit_stack.push(
                    StackItemV::Path(m.bookmarks[m.bookmark_cursor].path),
                ),
                ..m
            }
        } else {
            m
        },
        StackItemV::Recents => if m.recents_cursor < m.recents.len() {
            ModelV {
                visit_stack: m.visit_stack.push(StackItemV::Path(m.recents[m.recents_cursor])),
                ..m
            }
        } else {
            m
        },
    }
}

/// A committed search step: the cursor jumps to the next or previous
/// entry containing the search text, wrapping at the list ends.
pub open spec fn spec_search_scan(m: ModelV, forward: bool) -> ModelV
    recommends
        m.visit_stack.len() >= 1,
{
    match m.search_input {
        Some(b) => match spec_top_list(m) {
            Some((p, l)) => if l.list.len() > 0 {
                let found = if forward {
                    spec_scan_next(l.list, b.input, l.cursor, false)
                } else {
                    spec_scan_prev(l.list, b.input, l.cursor, false)
                };
                match found {
                    Some(i) => ModelV { path_data: spec_with_cursor(m.path_data, p, l, i), ..m },
                    None => m,
                }
            } else {
                m
            },
            None => m,
        },
        None => m,
    }
}

/// One key in the search buffer: the edit lands in the buffer; a typed
/// character recomputes the closest match and moves the cursor there;
/// Enter commits the buffer without closing the mode.
pub open spec fn spec_search_input(m: ModelV, k: KeyEvent) -> ModelV
    recommends
        m.visit_stack.len() >= 1,
{
    match m.search_input {
        None => m,
        Some(b) => {
            let b2 = InputModel::spec_edit(b, k);
            let m1 = ModelV { search_input: Some(b2), ..m };
            match k.code {
                KeyCode::Char(_) => match spec_top_list(m1) {
                    Some((p, l)) => match spec_closest(l.list, b2.input, l.cursor) {
                        Some(i) => ModelV {
                            path_data: spec_with_cursor(m1.path_data, p, l, i),
                            ..m1
                        },
                        None => m1,
                    },
                    None => m1,
                },
                KeyCode::Enter => ModelV {
                    search_input: Some(InputModelV { typing: false, ..b2 }),
                    ..m
                },
                _ => m1,
            }
        },
    }
}

/// Creating a bookmark at the current path: the buffer text names it, an
/// empty buffer falls back to the path's last segment; the naming mode
/// closes.
pub open spec fn spec_create_bookmark(m: ModelV) -> ModelV
    recommends
        m.visit_stack.len() >= 1,
{
    match (m.visit_stack.last(), m.new_bookmark_input) {
        (StackItemV::Path(p), Some(b)) => {
            let display = if b.input.len() > 0 {
                b.input
            } else if p.len() > 0 {
                p.last()
            } else {
                Seq::empty()
            };
            ModelV {
                bookmarks: m.bookmarks.push(BookmarkV { display, path: p }),
                new_bookmark_input: None,
                ..m
            }
        },
        _ => m,
    }
}

/// Deleting the selected bookmark, clamping the bookmark cursor into the
/// shortened list.
pub open spec fn spec_delete_bookmark(m: ModelV) -> ModelV {
    if m.bookmark_cursor < m.bookmarks.len() {
        let rest = m.bookmarks.remove(m.bookmark_cursor);
        ModelV {
            bookmarks: rest,
            bookmark_cursor: spec_clamp(m.bookmark_cursor, rest.len() as int),
            ..m
        }
    } else {
        m
    }
}

/// A committed navigator step: the cursor of the typed path's parent
/// list jumps to the next or previous child starting with the trailing
/// typed segment, wrapping at the list ends.
pub open spec fn spec_navigator_scan(m: ModelV, forward: bool) -> ModelV {
    match m.path_navigator_input {
        None => m,
        Some(b) => {
            let typed = spec_parse(b.input);
            if typed.len() > 0 {
                let parent = typed.drop_last();
                let pat = typed.last();
                match spec_stored(m.path_data, parent) {
                    Some(PathDataV::List(l)) => if l.list.len() > 0 {
                        let found = if forward {
                            spec_scan_next(l.list, pat, l.cursor, true)
                        } else {
                            spec_scan_prev(l.list, pat, l.cursor, true)
                        };
                        match found {
                            Some(i) => ModelV {
                                path_data: spec_with_cursor(m.path_data, parent, l, i),
                                ..m
                            },
                            None => m,
                        }
                    } else {
                        m
                    },
                    _ => m,
                }
            } else {
                m
            }
        },
    }
}

/// An edit in the navigator: the breadcrumb stack follows the typed
/// text's parent path, and the parent's cached list pre-selects the
/// first child starting with the trailing typed segment.
pub open spec fn spec_nav_reparent(m: ModelV) -> ModelV {
    match m.path_navigator_input {
        None => m,
        Some(b) => {
            let typed = spec_parse(b.input);
            if typed.len() > 0 {
                let parent = typed.drop_last();
                let pat = typed.last();
                let m2 = if m.visit_stack.len() >= 1 && m.visit_stack.last() == StackItemV::Path(
                    parent,
                ) {
                    m
                } else {
                    ModelV {
                        visit_stack: spec_stack_chain(parent),
                        path_data: spec_align_upto(m.path_data, parent, parent.len() as int),
                        ..m
                    }
                };
                match spec_stored(m2.path_data, parent) {
                    Some(PathDataV::List(l)) => match first_match_in(
                        l.list,
                        pat,
                        true,
                        0,
                        l.list.len() as int,
                    ) {
                        Some(ix) => ModelV {
                            path_data: spec_with_cursor(m2.path_data, parent, l, ix),
                            ..m2
                        },
                        None => m2,
                    },
                    _ => m2,
                }
            } else {
                m
            }
        },
    }
}

/// A Tab or Shift-Tab in the navigator: scanning the parent list from
/// the cursor for a child starting with the remembered prefix (or the
/// trailing typed segment the first time), wrapping around; on a match
/// the buffer becomes the full path through that child and the cursor
/// moves there.
pub open spec fn spec_nav_tab(m: ModelV, forward: bool) -> ModelV {
    match m.path_navigator_input {
        None => m,
        Some(b) => {
            let typed = spec_parse(b.input);
            if typed.len() > 0 {
                let parent = typed.drop_last();
                let prefix = match m.prev_tab_completion {
                    Some(s) => s,
                    None => typed.last(),
                };
                match spec_stored(m.path_data, parent) {
                    Some(PathDataV::List(l)) => if l.list.len() > 0 {
                        let found = if forward {
                            spec_scan_next(l.list, prefix, l.cursor, true)
                        } else {
                            spec_scan_prev(l.list, prefix, l.cursor, true)
                        };
                        match found {
                            Some(i) => {
                                let text = spec_render(parent.push(l.list[i]));
                                ModelV {
                                    prev_tab_completion: Some(prefix),
                                    path_data: spec_with_cursor(m.path_data, parent, l, i),
                                    path_navigator_input: Some(
                                        InputModelV {
                                            typing: b.typing,
                                            input: text,
                                            cursor: text.len() as int,
                                        },
                                    ),
                                    ..m
                                }
                            },
                            None => m,
                        }
                    } else {
                        m
                    },
                    _ => m,
                }
            } else {
                m
            }
        },
    }
}

/// One key in the navigator buffer: the edit lands in the buffer, any
/// non-Tab key drops the remembered completion prefix, edits re-anchor
/// the breadcrumb, Tab cycles completion, Enter commits.
pub open spec fn spec_navigator_input(m: ModelV, k: KeyEvent) -> ModelV {
    match m.path_navigator_input {
        None => m,
        Some(b) => {
            let b2 = InputModel::spec_edit(b, k);
            let cleared = !(k.code is Tab || k.code is BackTab);
            let m1 = ModelV {
                path_navigator_input: Some(b2),
                prev_tab_completion: if cleared {
                    None
                } else {
                    m.prev_tab_completion
                },
                ..m
            };
            match k.code {
                KeyCode::Char(_) => spec_nav_reparent(m1),
                KeyCode::Backspace => spec_nav_reparent(m1),
                KeyCode::Tab => spec_nav_tab(m1, true),
                KeyCode::BackTab => spec_nav_tab(m1, false),
                KeyCode::Enter => ModelV {
                    path_navigator_input: Some(InputModelV { typing: false, ..b2 }),
                    ..m1
                },
                _ => m1,
            }
        },
    }
}

/// The whole transition: the state after applying one message.
pub open spec fn spec_apply(m: ModelV, msg: Message, h: u16) -> ModelV
    recommends
        m.visit_stack.len() >= 1,
{
    match msg {
        Message::Data(p, d) => ModelV {
            path_data: m.path_data.insert(p@, spec_merge(spec_stored(m.path_data, p@), d@)),
            ..m
        },
        Message::CurrentPath(p) => ModelV {
            visit_stack: m.visit_stack.push(StackItemV::Path(p@)),
            ..m
        },
        Message::SearchEnter => ModelV {
            search_input: Some(spec_fresh_buffer(Seq::empty())),
            ..m
        },
        Message::SearchExit => ModelV { search_input: None, ..m },
        Message::SearchInput(k) => spec_search_input(m, k),
        Message::SearchNext => spec_search_scan(m, true),
        Message::SearchPrev => spec_search_scan(m, false),
        Message::NavigatorEnter => ModelV {
            path_navigator_input: Some(spec_fresh_buffer(spec_nav_seed(m))),
            ..m
        },
        Message::NavigatorExit => ModelV { path_navigator_input: None, ..m },
        Message::NavigatorInput(k) => spec_navigator_input(m, k),
        Message::NavigatorNext => spec_navigator_scan(m, true),
        Message::NavigatorPrev => spec_navigator_scan(m, false),
        Message::BookmarkInputEnter => ModelV {
            new_bookmark_input: Some(spec_fresh_buffer(spec_bookmark_seed(m))),
            ..m
        },
        Message::BookmarkInputExit => ModelV { new_bookmark_input: None, ..m },
        Message::BookmarkInput(k) => match m.new_bookmark_input {
            Some(b) => ModelV { new_bookmark_input: Some(InputModel::spec_edit(b, k)), ..m },
            None => m,
        },
        Message::CreateBookmark => spec_create_bookmark(m),
        Message::DeleteBookmark => spec_delete_bookmark(m),
        Message::Refresh => m,
        Message::PageUp => spec_page(m, h, false),
        Message::PageDown => spec_page(m, h, true),
        Message::Back => if m.visit_stack.len() > 1 {
            ModelV { visit_stack: m.visit_stack.drop_last(), ..m }
        } else {
            m
        },
        Message::EnterItem => spec_enter_item(m),
        Message::ListUp => spec_list_move(m, false),
        Message::ListDown => spec_list_move(m, true),
        Message::Quit => ModelV { running: RunningState::Stopped, ..m },
    }
}

} // verus!
