//! The breadcrumb of visited locations.  The bottom element is always the
//! root menu; above it sit the bookmarks or recents lists and concrete
//! paths, pushed and popped only at the top.

use vstd::prelude::*;

use crate::path::BrowserPath;

verus! {

/// One breadcrumb entry: a pseudo-location or a concrete path.
#[derive(Debug)]
pub enum BrowserStackItem {
    Root,
    Bookmarks,
    Recents,
    BrowserPath(BrowserPath),
}

/// The mathematical content of a breadcrumb entry.
#[verifier::ext_equal]
pub enum StackItemV {
    Root,
    Bookmarks,
    Recents,
    Path(Seq<Seq<char>>),
}

impl View for BrowserStackItem {
    type V = StackItemV;

    open spec fn view(&self) -> StackItemV {
        match self {
            BrowserStackItem::Root => StackItemV::Root,
            BrowserStackItem::Bookmarks => StackItemV::Bookmarks,
            BrowserStackItem::Recents => StackItemV::Recents,
            BrowserStackItem::BrowserPath(p) => StackItemV::Path(p@),
        }
    }
}

impl DeepView for BrowserStackItem {
    type V = StackItemV;

    open spec fn deep_view(&self) -> StackItemV {
        self@
    }
}

impl Clone for BrowserStackItem {
    fn clone(&self) -> (r: Self)
        ensures
            r@ == self@,
    {
        match self {
            BrowserStackItem::Root => BrowserStackItem::Root,
            BrowserStackItem::Bookmarks => BrowserStackItem::Bookmarks,
            BrowserStackItem::Recents => BrowserStackItem::Recents,
            BrowserStackItem::BrowserPath(p) => BrowserStackItem::BrowserPath(p.clone()),
        }
    }
}

/// The navigation stack itself.
#[derive(Debug)]
pub struct BrowserStack(pub Vec<BrowserStackItem>);

impl View for BrowserStack {
    type V = Seq<StackItemV>;

    open spec fn view(&self) -> Seq<StackItemV> {
        self.0.deep_view()
    }
}

impl BrowserStack {
    /// Non-empty, with the root menu at the bottom; the root menu is
    /// never popped.
    pub open spec fn wf(&self) -> bool {
        self@.len() >= 1 && self@[0] == StackItemV::Root
    }

    /// A stack holding only the root menu.
    pub fn new() -> (r: BrowserStack)
        ensures
            r@ =~= seq![StackItemV::Root],
            r.wf(),
    {
        let mut items: Vec<BrowserStackItem> = Vec::new();
        items.push(BrowserStackItem::Root);
        proof {
            assert(items.deep_view() =~= seq![StackItemV::Root]);
        }
        BrowserStack(items)
    }

    /// How many locations are on the stack.
    pub fn len(&self) -> (r: usize)
        ensures
            r == self@.len(),
    {
        self.0.len()
    }

    /// Pushes any breadcrumb entry.
    pub fn push_item(&mut self, item: BrowserStackItem)
        ensures
            final(self)@ == old(self)@.push(item@),
    {
        let ghost pre = self@;
        self.0.push(item);
        proof {
            assert(self@ =~= pre.push(self.0@.last()@));
        }
    }

    /// Pushes a concrete path.
    pub fn push_path(&mut self, path: BrowserPath)
        ensures
            final(self)@ == old(self)@.push(StackItemV::Path(path@)),
    {
        self.push_item(BrowserStackItem::BrowserPath(path));
    }

    /// Pops the top location; the root menu floor stays.
    pub fn pop(&mut self)
        requires
            old(self)@.len() > 1,
        ensures
            final(self)@ == old(self)@.drop_last(),
    {
        let ghost pre = self@;
        self.0.pop();
        proof {
            assert(self@ =~= pre.drop_last());
        }
    }

    /// The entry on top of the stack.
    pub fn top(&self) -> (r: &BrowserStackItem)
        requires
            self@.len() >= 1,
        ensures
            r@ == self@.last(),
    {
        &self.0[self.0.len() - 1]
    }

    /// The entry directly under the top, if the stack has one.
    pub fn prev_item(&self) -> (r: Option<&BrowserStackItem>)
        ensures
            match r {
                Some(x) => self@.len() >= 2 && x@ == self@[self@.len() - 2],
                None => self@.len() < 2,
            },
    {
        if self.0.len() >= 2 {
            Some(&self.0[self.0.len() - 2])
        } else {
            None
        }
    }

    /// The path on top of the stack, when the top is a concrete path.
    pub fn current(&self) -> (r: Option<&BrowserPath>)
        ensures
            match r {
                Some(p) => self@.len() >= 1 && self@.last() == StackItemV::Path(p@),
                None => self@.len() == 0 || !(self@.last() is Path),
            },
    {
        if self.0.len() == 0 {
            return None;
        }
        match &self.0[self.0.len() - 1] {
            BrowserStackItem::BrowserPath(p) => Some(p),
            _ => None,
        }
    }

    /// The path on top of the stack, for callers that already know the
    /// top is a concrete path.
    pub fn current_force(&self) -> (r: &BrowserPath)
        requires
            self@.len() >= 1,
            self@.last() is Path,
        ensures
            self@.last() == StackItemV::Path(r@),
    {
        match &self.0[self.0.len() - 1] {
            BrowserStackItem::BrowserPath(p) => p,
            _ => vstd::pervasive::unreached(),
        }
    }
}

} // verus!
