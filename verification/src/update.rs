//! The message handlers and the driver-facing `update` entry point.
//!
//! Handlers only change session state; the fetches they give rise to are
//! collected as data in the [`UpdateContext`], in the order the
//! reevaluation policy dispatches them, and the driver drains them into
//! the protocol worker's queue.  Nothing here blocks.

use vstd::prelude::*;

use crate::cache::spec_merge;
use crate::data::PathData;
use crate::data::path_data_wf;
use crate::input::InputModel;
use crate::input::InputState;
use crate::input::KeyCode;
use crate::input::KeyEvent;
use crate::model::Bookmark;
use crate::model::Message;
use crate::model::Model;
use crate::model::ModelV;
use crate::model::RunningState;
use crate::model::ViewData;
use crate::model::next;
use crate::model::prev;
use crate::model::select_next;
use crate::model::select_prev;
use crate::path::BrowserPath;
use crate::search::closest_match;
use crate::search::first_prefix_match;
use crate::search::lemma_closest;
use crate::search::lemma_first_match_in;
use crate::search::lemma_last_match_in;
use crate::search::scan_next;
use crate::search::scan_prev;
use crate::stack::BrowserStackItem;
use crate::stack::StackItemV;
use crate::text::chars_of_str;
use crate::text::string_of_chars;
use crate::transition::fetch_if_absent;
use crate::transition::spec_apply;
use crate::transition::spec_bookmark_seed;
use crate::transition::spec_create_bookmark;
use crate::transition::spec_delete_bookmark;
use crate::transition::spec_enter_item;
use crate::transition::spec_follow;
use crate::transition::spec_list_move;
use crate::transition::spec_nav_reparent;
use crate::transition::spec_nav_seed;
use crate::transition::spec_nav_tab;
use crate::transition::spec_navigator_input;
use crate::transition::spec_navigator_scan;
use crate::transition::spec_page;
use crate::transition::spec_policy;
use crate::transition::spec_policy_child;
use crate::transition::spec_policy_loc;
use crate::transition::spec_policy_parent;
use crate::transition::spec_refresh_targets;
use crate::transition::spec_saves;
use crate::transition::spec_search_input;
use crate::transition::spec_search_scan;
use crate::transition::spec_stored;

verus! {

/// What one `update` call decides beyond the state change: the fetches
/// to dispatch (in order) and whether the bookmark store must be
/// rewritten.  The driver owns one of these and drains it after each
/// message.
#[derive(Debug)]
pub struct UpdateContext {
    /// Paths whose evaluation has been requested, oldest first.
    pub queued: Vec<BrowserPath>,
    /// Set when a bookmark change must be persisted.
    pub save_requested: bool,
}

impl UpdateContext {
    /// A context with nothing queued and nothing to save.
    pub fn new() -> (r: UpdateContext)
        ensures
            r.queued.deep_view() == Seq::<Seq<Seq<char>>>::empty(),
            !r.save_requested,
    {
        let queued: Vec<BrowserPath> = Vec::new();
        proof {
            assert(queued.deep_view() =~= Seq::<Seq<Seq<char>>>::empty());
        }
        UpdateContext { queued, save_requested: false }
    }

    /// Queues one fetch unconditionally.
    pub fn queue_reeval(&mut self, path: &BrowserPath)
        ensures
            final(self).queued.deep_view() == old(self).queued.deep_view() + seq![path@],
            final(self).save_requested == old(self).save_requested,
    {
        let ghost pre = self.queued.deep_view();
        self.queued.push(path.clone());
        proof {
            assert(self.queued.deep_view() =~= pre + seq![path@]);
        }
    }

    /// Queues a fetch only when the cache has no entry for the path.
    pub fn maybe_reeval_path(&mut self, path: &BrowserPath, model: &Model)
        ensures
            final(self).queued.deep_view() == old(self).queued.deep_view() + fetch_if_absent(
                model@.path_data,
                path@,
            ),
            final(self).save_requested == old(self).save_requested,
    {
        if !model.path_data.contains(path) {
            self.queue_reeval(path);
        } else {
            proof {
                assert(self.queued.deep_view() =~= self.queued.deep_view()
                    + fetch_if_absent(model@.path_data, path@));
            }
        }
    }

    /// Queues the parent-context fetch: the entry below the top of the
    /// stack, when it is a path absent from the cache.
    pub fn maybe_reeval_parent(&mut self, model: &Model)
        ensures
            final(self).queued.deep_view() == old(self).queued.deep_view() + spec_policy_parent(
                model@,
            ),
            final(self).save_requested == old(self).save_requested,
    {
        let ghost pre = self.queued.deep_view();
        match model.visit_stack.prev_item() {
            Some(item) => match item {
                BrowserStackItem::BrowserPath(p) => {
                    self.maybe_reeval_path(p, model);
                },
                _ => {
                    proof {
                        assert(pre =~= pre + spec_policy_parent(model@));
                    }
                },
            },
            None => {
                proof {
                    assert(pre =~= pre + spec_policy_parent(model@));
                }
            },
        }
    }

    /// Queues the fetch of the selected child of the list at `p`, when
    /// that child is absent from the cache.
    pub fn maybe_reeval_selection_browser(&mut self, p: &BrowserPath, model: &Model)
        requires
            model.path_data.wf(),
        ensures
            final(self).queued.deep_view() == old(self).queued.deep_view() + spec_policy_child(
                model@.path_data,
                p@,
            ),
            final(self).save_requested == old(self).save_requested,
    {
        let ghost pre = self.queued.deep_view();
        proof {
            if model.path_data@.contains_key(p@) {
                model.path_data.lemma_wf_values(p@);
            }
        }
        match model.path_data.selected_child(p) {
            Some(c) => {
                self.maybe_reeval_path(&c, model);
            },
            None => {
                proof {
                    assert(pre =~= pre + spec_policy_child(model@.path_data, p@));
                }
            },
        }
    }

    /// Queues whatever the policy asks for at one location: the path and
    /// its selected child, the selected bookmark's target, the selected
    /// recent, or the tree root when the root menu rests on its root
    /// entry.
    pub fn maybe_reeval_current_selection(&mut self, loc: &BrowserStackItem, model: &Model)
        requires
            model.path_data.wf(),
        ensures
            final(self).queued.deep_view() == old(self).queued.deep_view() + spec_policy_loc(
                model@,
                loc@,
            ),
            final(self).save_requested == old(self).save_requested,
    {
        let ghost pre = self.queued.deep_view();
        match loc {
            BrowserStackItem::BrowserPath(p) => {
                self.maybe_reeval_path(p, model);
                self.maybe_reeval_selection_browser(p, model);
                proof {
                    assert(self.queued.deep_view() =~= pre + spec_policy_loc(model@, loc@));
                }
            },
            BrowserStackItem::Bookmarks => {
                match model.selected_bookmark() {
                    Some(b) => {
                        let target = b.path.clone();
                        self.maybe_reeval_path(&target, model);
                    },
                    None => {
                        proof {
                            assert(pre =~= pre + spec_policy_loc(model@, loc@));
                        }
                    },
                }
            },
            BrowserStackItem::Recents => {
                match model.selected_recent() {
                    Some(r) => {
                        let target = r.clone();
                        self.maybe_reeval_path(&target, model);
                    },
                    None => {
                        proof {
                            assert(pre =~= pre + spec_policy_loc(model@, loc@));
                        }
                    },
                }
            },
            BrowserStackItem::Root => {
                if model.root_view_state == 2 {
                    let root = BrowserPath(Vec::new());
                    proof {
                        assert(root@ =~= Seq::<Seq<char>>::empty());
                    }
                    self.maybe_reeval_path(&root, model);
                } else {
                    proof {
                        assert(pre =~= pre + spec_policy_loc(model@, loc@));
                    }
                }
            },
        }
    }

    /// Queues the policy's top-of-stack fetches for the current state.
    pub fn maybe_reeval_selection(&mut self, model: &Model)
        requires
            model.wf(),
        ensures
            final(self).queued.deep_view() == old(self).queued.deep_view() + spec_policy_loc(
                model@,
                model@.visit_stack.last(),
            ),
            final(self).save_requested == old(self).save_requested,
    {
        let top = model.visit_stack.top().clone();
        self.maybe_reeval_current_selection(&top, model);
    }

    /// Runs the whole reevaluation policy on the state a message left
    /// behind.
    fn apply_policy(&mut self, model: &Model)
        requires
            model.wf(),
        ensures
            final(self).queued.deep_view() == old(self).queued.deep_view() + spec_policy(model@),
            final(self).save_requested == old(self).save_requested,
    {
        let ghost pre = self.queued.deep_view();
        self.maybe_reeval_selection(model);
        self.maybe_reeval_parent(model);
        proof {
            assert(self.queued.deep_view() =~= pre + spec_policy(model@));
        }
    }

    /// Queues the forced-refresh fetches: current path, selected child,
    /// parent context, with no absence guard.
    fn queue_refresh(&mut self, model: &Model)
        requires
            model.wf(),
        ensures
            final(self).queued.deep_view() == old(self).queued.deep_view() + spec_refresh_targets(
                model@,
            ),
            final(self).save_requested == old(self).save_requested,
    {
        let ghost pre = self.queued.deep_view();
        let ghost top_part = match model@.visit_stack.last() {
            StackItemV::Path(pv) => seq![pv] + (match spec_stored(model@.path_data, pv) {
                Some(crate::data::PathDataV::List(l)) => if l.cursor < l.list.len() {
                    seq![pv.push(l.list[l.cursor])]
                } else {
                    Seq::empty()
                },
                _ => Seq::empty(),
            }),
            _ => Seq::<Seq<Seq<char>>>::empty(),
        };
        match model.visit_stack.current() {
            Some(p) => {
                let p = p.clone();
                proof {
                    if model.path_data@.contains_key(p@) {
                        model.path_data.lemma_wf_values(p@);
                    }
                }
                self.queue_reeval(&p);
                match model.path_data.selected_child(&p) {
                    Some(c) => {
                        self.queue_reeval(&c);
                    },
                    None => {},
                }
                proof {
                    assert(self.queued.deep_view() =~= pre + top_part);
                }
            },
            None => {
                proof {
                    assert(self.queued.deep_view() =~= pre + top_part);
                }
            },
        }
        match model.visit_stack.prev_item() {
            Some(BrowserStackItem::BrowserPath(q)) => {
                let q = q.clone();
                self.queue_reeval(&q);
            },
            _ => {},
        }
        proof {
            assert(self.queued.deep_view() =~= pre + spec_refresh_targets(model@));
        }
    }
}

impl UpdateContext {
    /// Applies one message to the session: the state change is exactly
    /// the transition relation's, the follow-up message is returned to
    /// the driver, a bookmark change requests a save, and the fetches of
    /// the reevaluation policy (or, on a forced refresh, its
    /// unconditional targets) are queued in order.
    pub fn update(&mut self, view_data: &ViewData, model: &mut Model, msg: Message) -> (r: Option<
        Message,
    >)
        requires
            old(model).wf(),
            (msg matches Message::Data(_, d) ==> path_data_wf(d@)),
        ensures
            final(model).wf(),
            final(model)@ == spec_apply(old(model)@, msg, view_data.current_list_height),
            r == spec_follow(old(model)@, msg),
            final(self).save_requested == (old(self).save_requested || spec_saves(
                old(model)@,
                msg,
            )),
            final(self).queued.deep_view() == old(self).queued.deep_view() + (if msg is Refresh {
                spec_refresh_targets(old(model)@)
            } else {
                spec_policy(spec_apply(old(model)@, msg, view_data.current_list_height))
            }),
    {
        let ghost m0 = model@;
        let h = view_data.current_list_height;
        let follow: Option<Message> = match msg {
            Message::Data(p, d) => {
                apply_data(model, p, d);
                None
            },
            Message::CurrentPath(p) => {
                model.visit_stack.push_path(p);
                proof {
                    assert(model@.visit_stack[0] == m0.visit_stack[0]);
                }
                None
            },
            Message::SearchEnter => {
                model.search_input = InputState::Active(InputModel::new(true, Vec::new()));
                None
            },
            Message::SearchExit => {
                model.search_input = InputState::Normal;
                None
            },
            Message::SearchInput(k) => apply_search_input(model, k),
            Message::SearchNext => {
                apply_search_scan(model, true);
                None
            },
            Message::SearchPrev => {
                apply_search_scan(model, false);
                None
            },
            Message::NavigatorEnter => {
                apply_nav_enter(model);
                None
            },
            Message::NavigatorExit => {
                model.path_navigator_input = InputState::Normal;
                None
            },
            Message::NavigatorInput(k) => apply_nav_input(model, k),
            Message::NavigatorNext => {
                apply_nav_scan(model, true);
                None
            },
            Message::NavigatorPrev => {
                apply_nav_scan(model, false);
                None
            },
            Message::BookmarkInputEnter => {
                apply_bookmark_enter(model);
                None
            },
            Message::BookmarkInputExit => {
                model.new_bookmark_input = InputState::Normal;
                None
            },
            Message::BookmarkInput(k) => {
                apply_bookmark_input(model, k);
                None
            },
            Message::CreateBookmark => {
                let saved = apply_create_bookmark(model);
                if saved {
                    self.save_requested = true;
                }
                None
            },
            Message::DeleteBookmark => {
                let saved = apply_delete_bookmark(model);
                if saved {
                    self.save_requested = true;
                }
                None
            },
            Message::Refresh => {
                self.queue_refresh(model);
                return None;
            },
            Message::PageUp => {
                apply_page(model, h, false);
                None
            },
            Message::PageDown => {
                apply_page(model, h, true);
                None
            },
            Message::Back => {
                if model.visit_stack.len() > 1 {
                    model.visit_stack.pop();
                    proof {
                        assert(model@.visit_stack[0] == m0.visit_stack[0]);
                    }
                }
                None
            },
            Message::EnterItem => {
                apply_enter_item(model);
                None
            },
            Message::ListUp => {
                apply_list_move(model, false);
                None
            },
            Message::ListDown => {
                apply_list_move(model, true);
                None
            },
            Message::Quit => {
                model.running_state = RunningState::Stopped;
                None
            },
        };
        self.apply_policy(model);
        follow
    }
}

/// Takes a live input state out of its slot, leaving the slot inactive.
fn take_state(slot: &mut InputState) -> (r: InputState)
    ensures
        r == *old(slot),
        final(slot)@ is None,
{
    let mut tmp = InputState::Normal;
    core::mem::swap(slot, &mut tmp);
    tmp
}

/// The top of the stack as a cloned path, when it is one.
fn current_path_cloned(model: &Model) -> (r: Option<BrowserPath>)
    requires
        model.wf(),
    ensures
        match r {
            Some(p) => model@.visit_stack.last() == StackItemV::Path(p@),
            None => !(model@.visit_stack.last() is Path),
        },
{
    match model.visit_stack.current() {
        Some(p) => Some(p.clone()),
        None => None,
    }
}

/// A node value arrived: merge it into the cache.
fn apply_data(model: &mut Model, p: BrowserPath, d: PathData)
    requires
        old(model).wf(),
        path_data_wf(d@),
    ensures
        final(model).wf(),
        final(model)@ == (ModelV {
            path_data: old(model)@.path_data.insert(
                p@,
                spec_merge(spec_stored(old(model)@.path_data, p@), d@),
            ),
            ..old(model)@
        }),
{
    model.path_data.insert_or_merge(p, d);
}

/// A cursor move on whichever list is topmost, with wraparound.
fn apply_list_move(model: &mut Model, down: bool)
    requires
        old(model).wf(),
    ensures
        final(model).wf(),
        final(model)@ == spec_list_move(old(model)@, down),
{
    let top_item = model.visit_stack.top().clone();
    match top_item {
        BrowserStackItem::Root => {
            if down {
                select_next(&mut model.root_view_state, 3);
            } else {
                select_prev(&mut model.root_view_state, 3);
            }
        },
        BrowserStackItem::BrowserPath(p) => {
            proof {
                if model.path_data@.contains_key(p@) {
                    model.path_data.lemma_wf_values(p@);
                }
            }
            let c2: Option<usize> = match model.path_data.current_list(&p) {
                Some(l) => if l.list.len() > 0 {
                    if down {
                        Some(next(l.cursor, l.list.len()))
                    } else {
                        Some(prev(l.cursor, l.list.len()))
                    }
                } else {
                    None
                },
                None => None,
            };
            match c2 {
                Some(c2) => {
                    model.path_data.set_list_cursor(&p, c2);
                },
                None => {},
            }
        },
        BrowserStackItem::Bookmarks => {
            let len = model.config.bookmarks.len();
            if len > 0 {
                if down {
                    select_next(&mut model.bookmark_view_state, len);
                } else {
                    select_prev(&mut model.bookmark_view_state, len);
                }
            }
        },
        BrowserStackItem::Recents => {
            let len = model.recents.len();
            if len > 0 {
                if down {
                    select_next(&mut model.recents_view_state, len);
                } else {
                    select_prev(&mut model.recents_view_state, len);
                }
            }
        },
    }
}

/// A half-page cursor move on the current list, clamped at the ends.
fn apply_page(model: &mut Model, h: u16, down: bool)
    requires
        old(model).wf(),
    ensures
        final(model).wf(),
        final(model)@ == spec_page(old(model)@, h, down),
{
    let p = match current_path_cloned(model) {
        Some(p) => p,
        None => {
            return ;
        },
    };
    proof {
        if model.path_data@.contains_key(p@) {
            model.path_data.lemma_wf_values(p@);
        }
    }
    let hh: u16 = if h >= 1 {
        h
    } else {
        1
    };
    let delta: usize = (hh / 2) as usize;
    let c2: Option<usize> = match model.path_data.current_list(&p) {
        Some(l) => if l.list.len() > 0 {
            if down {
                if delta < l.list.len() - l.cursor {
                    Some(l.cursor + delta)
                } else {
                    Some(l.list.len() - 1)
                }
            } else {
                if l.cursor >= delta {
                    Some(l.cursor - delta)
                } else {
                    Some(0)
                }
            }
        } else {
            None
        },
        None => None,
    };
    match c2 {
        Some(c2) => {
            model.path_data.set_list_cursor(&p, c2);
        },
        None => {},
    }
}

/// Entering the selected item of the topmost list.
fn apply_enter_item(model: &mut Model)
    requires
        old(model).wf(),
    ensures
        final(model).wf(),
        final(model)@ == spec_enter_item(old(model)@),
{
    let ghost m0 = model@;
    let top_item = model.visit_stack.top().clone();
    match top_item {
        BrowserStackItem::Root => {
            if model.root_view_state == 0 {
                model.visit_stack.push_item(BrowserStackItem::Bookmarks);
            } else if model.root_view_state == 1 {
                model.visit_stack.push_item(BrowserStackItem::Recents);
            } else {
                let root = BrowserPath(Vec::new());
                proof {
                    assert(root@ =~= Seq::<Seq<char>>::empty());
                }
                model.visit_stack.push_path(root);
            }
        },
        BrowserStackItem::BrowserPath(p) => {
            proof {
                if model.path_data@.contains_key(p@) {
                    model.path_data.lemma_wf_values(p@);
                }
            }
            match model.path_data.selected_child(&p) {
                Some(c) => {
                    model.visit_stack.push_path(c);
                },
                None => {},
            }
        },
        BrowserStackItem::Bookmarks => {
            let target: Option<BrowserPath> = match model.selected_bookmark() {
                Some(b) => Some(b.path.clone()),
                None => None,
            };
            match target {
                Some(t) => {
                    model.visit_stack.push_path(t);
                },
                None => {},
            }
        },
        BrowserStackItem::Recents => {
            let target: Option<BrowserPath> = match model.selected_recent() {
                Some(r) => Some(r.clone()),
                None => None,
            };
            match target {
                Some(t) => {
                    model.visit_stack.push_path(t);
                },
                None => {},
            }
        },
    }
    proof {
        assert(model@.visit_stack[0] == m0.visit_stack[0]);
    }
}

/// Opening the bookmark-naming mode, seeded with the selected child's
/// name.
fn apply_bookmark_enter(model: &mut Model)
    requires
        old(model).wf(),
    ensures
        final(model).wf(),
        final(model)@ == (ModelV {
            new_bookmark_input: Some(
                crate::transition::spec_fresh_buffer(spec_bookmark_seed(old(model)@)),
            ),
            ..old(model)@
        }),
{
    let seed: Vec<char> = match current_path_cloned(model) {
        Some(p) => match model.path_data.current_list(&p) {
            Some(l) => if l.cursor < l.list.len() {
                chars_of_str(l.list[l.cursor].as_str())
            } else {
                Vec::new()
            },
            None => Vec::new(),
        },
        None => Vec::new(),
    };
    proof {
        assert(seed@ =~= spec_bookmark_seed(model@));
    }
    model.new_bookmark_input = InputState::Active(InputModel::new(true, seed));
}

/// One key in the bookmark-name buffer.
fn apply_bookmark_input(model: &mut Model, k: KeyEvent)
    requires
        old(model).wf(),
    ensures
        final(model).wf(),
        final(model)@ == (match old(model)@.new_bookmark_input {
            Some(b) => ModelV {
                new_bookmark_input: Some(InputModel::spec_edit(b, k)),
                ..old(model)@
            },
            None => old(model)@,
        }),
{
    let st = take_state(&mut model.new_bookmark_input);
    match st {
        InputState::Active(mut b) => {
            b.handle_key_event(k);
            model.new_bookmark_input = InputState::Active(b);
        },
        InputState::Normal => {},
    }
}

/// Creating a bookmark at the current path; reports whether the store
/// must be rewritten.
fn apply_create_bookmark(model: &mut Model) -> (saved: bool)
    requires
        old(model).wf(),
    ensures
        final(model).wf(),
        final(model)@ == spec_create_bookmark(old(model)@),
        saved == spec_saves(old(model)@, Message::CreateBookmark),
{
    let p = match current_path_cloned(model) {
        Some(p) => p,
        None => {
            return false;
        },
    };
    let display: Option<String> = match &model.new_bookmark_input {
        InputState::Active(b) => if b.input.len() > 0 {
            Some(string_of_chars(&b.input))
        } else {
            match p.last_segment() {
                Some(s) => Some(s.clone()),
                None => Some(String::new()),
            }
        },
        InputState::Normal => None,
    };
    match display {
        Some(display) => {
            let ghost pre = model.config.bookmarks.deep_view();
            let ghost dv = display@;
            let ghost pv = p@;
            model.config.bookmarks.push(Bookmark { display, path: p });
            model.new_bookmark_input = InputState::Normal;
            proof {
                assert(model.config.bookmarks.deep_view() =~= pre.push(
                    crate::model::BookmarkV { display: dv, path: pv },
                ));
            }
            true
        },
        None => false,
    }
}

/// A committed search step: jump to the next or previous entry of the
/// current list containing the search text, wrapping at the ends.
fn apply_search_scan(model: &mut Model, forward: bool)
    requires
        old(model).wf(),
    ensures
        final(model).wf(),
        final(model)@ == spec_search_scan(old(model)@, forward),
{
    let needle: String = match &model.search_input {
        InputState::Active(b) => string_of_chars(&b.input),
        InputState::Normal => {
            return ;
        },
    };
    let p = match current_path_cloned(model) {
        Some(p) => p,
        None => {
            return ;
        },
    };
    proof {
        if model.path_data@.contains_key(p@) {
            model.path_data.lemma_wf_values(p@);
        }
    }
    let c2: Option<usize> = match model.path_data.current_list(&p) {
        Some(l) => if l.list.len() > 0 {
            let found = if forward {
                scan_next(&l.list, &needle, l.cursor, false)
            } else {
                scan_prev(&l.list, &needle, l.cursor, false)
            };
            proof {
                lemma_first_match_in(
                    l@.list,
                    needle@,
                    false,
                    l@.cursor + 1,
                    l@.list.len() as int,
                );
                lemma_first_match_in(l@.list, needle@, false, 0, l@.cursor + 1);
                lemma_last_match_in(l@.list, needle@, false, 0, l@.cursor);
                lemma_last_match_in(l@.list, needle@, false, l@.cursor, l@.list.len() as int);
            }
            found
        } else {
            None
        },
        None => None,
    };
    match c2 {
        Some(i) => {
            model.path_data.set_list_cursor(&p, i);
        },
        None => {},
    }
}

/// One key in the search buffer: edit it, and while typing move the
/// cursor to the closest entry containing the new text.
fn apply_search_input(model: &mut Model, k: KeyEvent) -> (r: Option<Message>)
    requires
        old(model).wf(),
    ensures
        final(model).wf(),
        final(model)@ == spec_search_input(old(model)@, k),
        r == spec_follow(old(model)@, Message::SearchInput(k)),
{
    let st = take_state(&mut model.search_input);
    match st {
        InputState::Normal => None,
        InputState::Active(mut b) => {
            b.handle_key_event(k);
            match k.code {
                KeyCode::Char(_) => {
                    let needle = string_of_chars(&b.input);
                    model.search_input = InputState::Active(b);
                    match current_path_cloned(model) {
                        Some(p) => {
                            proof {
                                if model.path_data@.contains_key(p@) {
                                    model.path_data.lemma_wf_values(p@);
                                }
                            }
                            let c2: Option<usize> = match model.path_data.current_list(&p) {
                                Some(l) => {
                                    let found = closest_match(&l.list, &needle, l.cursor);
                                    proof {
                                        lemma_closest(l@.list, needle@, l@.cursor);
                                    }
                                    found
                                },
                                None => None,
                            };
                            match c2 {
                                Some(i) => {
                                    model.path_data.set_list_cursor(&p, i);
                                },
                                None => {},
                            }
                        },
                        None => {},
                    }
                    None
                },
                KeyCode::Esc => {
                    model.search_input = InputState::Active(b);
                    Some(Message::SearchExit)
                },
                KeyCode::Enter => {
                    b.typing = false;
                    model.search_input = InputState::Active(b);
                    None
                },
                _ => {
                    model.search_input = InputState::Active(b);
                    None
                },
            }
        },
    }
}

/// Opening the path navigator, seeded with the rendered current path and
/// a trailing separator.
fn apply_nav_enter(model: &mut Model)
    requires
        old(model).wf(),
    ensures
        final(model).wf(),
        final(model)@ == (ModelV {
            path_navigator_input: Some(
                crate::transition::spec_fresh_buffer(spec_nav_seed(old(model)@)),
            ),
            ..old(model)@
        }),
{
    let seed: Vec<char> = match model.visit_stack.current() {
        Some(p) => if p.0.len() > 0 {
            let mut s = p.to_expr();
            s.push('.');
            chars_of_str(s.as_str())
        } else {
            Vec::new()
        },
        None => chars_of_str("nixosConfigurations."),
    };
    proof {
        assert(seed@ =~= spec_nav_seed(model@));
    }
    model.path_navigator_input = InputState::Active(InputModel::new(true, seed));
}

/// The navigator buffer's text, parsed: the typed path, its parent and
/// its trailing segment, when the buffer is live and non-empty.
fn nav_typed_parts(model: &Model) -> (r: Option<(BrowserPath, BrowserPath, String)>)
    ensures
        match r {
            Some((typed, parent, pat)) => model@.path_navigator_input matches Some(b) && ({
                &&& typed@ == crate::path::spec_parse(b.input)
                &&& typed@.len() > 0
                &&& parent@ == typed@.drop_last()
                &&& pat@ == typed@.last()
            }),
            None => model@.path_navigator_input is None || (model@.path_navigator_input matches Some(
                b,
            ) && crate::path::spec_parse(b.input).len() == 0),
        },
{
    let text: String = match &model.path_navigator_input {
        InputState::Active(b) => string_of_chars(&b.input),
        InputState::Normal => {
            return None;
        },
    };
    let typed = BrowserPath::parse(text.as_str());
    let n = typed.0.len();
    if n == 0 {
        return None;
    }
    let parent = typed.take_prefix(n - 1);
    let pat = typed.0[n - 1].clone();
    proof {
        assert(parent@ =~= typed@.drop_last());
        assert(pat@ == typed@.last());
    }
    Some((typed, parent, pat))
}

/// A committed navigator step: move the parent list's cursor to the next
/// or previous child starting with the trailing typed segment.
fn apply_nav_scan(model: &mut Model, forward: bool)
    requires
        old(model).wf(),
    ensures
        final(model).wf(),
        final(model)@ == spec_navigator_scan(old(model)@, forward),
{
    let (_typed, parent, pat) = match nav_typed_parts(model) {
        Some(parts) => parts,
        None => {
            return ;
        },
    };
    proof {
        if model.path_data@.contains_key(parent@) {
            model.path_data.lemma_wf_values(parent@);
        }
    }
    let c2: Option<usize> = match model.path_data.current_list(&parent) {
        Some(l) => if l.list.len() > 0 {
            let found = if forward {
                scan_next(&l.list, &pat, l.cursor, true)
            } else {
                scan_prev(&l.list, &pat, l.cursor, true)
            };
            proof {
                lemma_first_match_in(l@.list, pat@, true, l@.cursor + 1, l@.list.len() as int);
                lemma_first_match_in(l@.list, pat@, true, 0, l@.cursor + 1);
                lemma_last_match_in(l@.list, pat@, true, 0, l@.cursor);
                lemma_last_match_in(l@.list, pat@, true, l@.cursor, l@.list.len() as int);
            }
            found
        } else {
            None
        },
        None => None,
    };
    match c2 {
        Some(i) => {
            model.path_data.set_list_cursor(&parent, i);
        },
        None => {},
    }
}

/// An edit in the navigator: re-anchor the breadcrumb at the typed
/// parent and pre-select the first child with the typed prefix.
fn apply_nav_reparent(model: &mut Model)
    requires
        old(model).wf(),
    ensures
        final(model).wf(),
        final(model)@ == spec_nav_reparent(old(model)@),
{
    let (_typed, parent, pat) = match nav_typed_parts(model) {
        Some(parts) => parts,
        None => {
            return ;
        },
    };
    let same: bool = match model.visit_stack.current() {
        Some(cp) => *cp == parent,
        None => false,
    };
    if !same {
        model.update_parent_selection(parent.clone());
    }
    proof {
        if model.path_data@.contains_key(parent@) {
            model.path_data.lemma_wf_values(parent@);
        }
    }
    let c2: Option<usize> = match model.path_data.current_list(&parent) {
        Some(l) => {
            let found = first_prefix_match(&l.list, &pat);
            proof {
                lemma_first_match_in(l@.list, pat@, true, 0, l@.list.len() as int);
            }
            found
        },
        None => None,
    };
    match c2 {
        Some(i) => {
            model.path_data.set_list_cursor(&parent, i);
        },
        None => {},
    }
}

/// Tab completion in the navigator: cycle the parent list's cursor
/// through children with the remembered prefix and rewrite the buffer as
/// the completed path.
fn apply_nav_tab(model: &mut Model, forward: bool)
    requires
        old(model).wf(),
    ensures
        final(model).wf(),
        final(model)@ == spec_nav_tab(old(model)@, forward),
{
    let (_typed, parent, pat) = match nav_typed_parts(model) {
        Some(parts) => parts,
        None => {
            return ;
        },
    };
    let prefix: String = match &model.prev_tab_completion {
        Some(s) => s.clone(),
        None => pat,
    };
    proof {
        if model.path_data@.contains_key(parent@) {
            model.path_data.lemma_wf_values(parent@);
        }
    }
    let found: Option<(usize, String)> = match model.path_data.current_list(&parent) {
        Some(l) => if l.list.len() > 0 {
            let scanned = if forward {
                scan_next(&l.list, &prefix, l.cursor, true)
            } else {
                scan_prev(&l.list, &prefix, l.cursor, true)
            };
            proof {
                lemma_first_match_in(l@.list, prefix@, true, l@.cursor + 1, l@.list.len() as int);
                lemma_first_match_in(l@.list, prefix@, true, 0, l@.cursor + 1);
                lemma_last_match_in(l@.list, prefix@, true, 0, l@.cursor);
                lemma_last_match_in(l@.list, prefix@, true, l@.cursor, l@.list.len() as int);
            }
            match scanned {
                Some(i) => Some((i, l.list[i].clone())),
                None => None,
            }
        } else {
            None
        },
        None => None,
    };
    match found {
        Some((i, chosen)) => {
            model.prev_tab_completion = Some(prefix);
            model.path_data.set_list_cursor(&parent, i);
            let completed = parent.child(chosen);
            let text2 = completed.to_expr();
            let chars = chars_of_str(text2.as_str());
            let cur = chars.len();
            let st = take_state(&mut model.path_navigator_input);
            match st {
                InputState::Active(mut b) => {
                    b.input = chars;
                    b.cursor_position = cur;
                    model.path_navigator_input = InputState::Active(b);
                },
                InputState::Normal => {
                    proof {
                        assert(false);
                    }
                },
            }
        },
        None => {},
    }
}

/// One key in the navigator buffer: edit, forget the completion prefix
/// on any non-Tab key, then re-anchor, cycle completion or commit.
fn apply_nav_input(model: &mut Model, k: KeyEvent) -> (r: Option<Message>)
    requires
        old(model).wf(),
    ensures
        final(model).wf(),
        final(model)@ == spec_navigator_input(old(model)@, k),
        r == spec_follow(old(model)@, Message::NavigatorInput(k)),
{
    let st = take_state(&mut model.path_navigator_input);
    match st {
        InputState::Normal => None,
        InputState::Active(mut b) => {
            b.handle_key_event(k);
            model.path_navigator_input = InputState::Active(b);
            let is_tab: bool = match k.code {
                KeyCode::Tab => true,
                KeyCode::BackTab => true,
                _ => false,
            };
            if !is_tab {
                model.prev_tab_completion = None;
            }
            match k.code {
                KeyCode::Char(_) => {
                    apply_nav_reparent(model);
                    None
                },
                KeyCode::Backspace => {
                    apply_nav_reparent(model);
                    None
                },
                KeyCode::Tab => {
                    apply_nav_tab(model, true);
                    None
                },
                KeyCode::BackTab => {
                    apply_nav_tab(model, false);
                    None
                },
                KeyCode::Esc => Some(Message::NavigatorExit),
                KeyCode::Enter => {
                    let st2 = take_state(&mut model.path_navigator_input);
                    match st2 {
                        InputState::Active(mut b2) => {
                            b2.typing = false;
                            model.path_navigator_input = InputState::Active(b2);
                        },
                        InputState::Normal => {
                            proof {
                                assert(false);
                            }
                        },
                    }
                    None
                },
                _ => None,
            }
        },
    }
}

/// Deleting the selected bookmark; reports whether the store must be
/// rewritten.
fn apply_delete_bookmark(model: &mut Model) -> (saved: bool)
    requires
        old(model).wf(),
    ensures
        final(model).wf(),
        final(model)@ == spec_delete_bookmark(old(model)@),
        saved == spec_saves(old(model)@, Message::DeleteBookmark),
{
    if model.bookmark_view_state < model.config.bookmarks.len() {
        let ghost pre = model.config.bookmarks.deep_view();
        let i = model.bookmark_view_state;
        model.config.bookmarks.remove(i);
        proof {
            assert(model.config.bookmarks.deep_view() =~= pre.remove(i as int));
        }
        let len2 = model.config.bookmarks.len();
        if i >= len2 {
            model.bookmark_view_state = if len2 == 0 {
                0
            } else {
                len2 - 1
            };
        }
        true
    } else {
        false
    }
}

} // verus!
