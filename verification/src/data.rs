//! Node values: what the evaluator reports for a path, and the typed form
//! the session keeps in its cache.
//!
//! A floating-point node is carried as the evaluator's textual rendering:
//! the session never computes with it, it only displays it.

use vstd::prelude::*;

use crate::path::BrowserPath;
use crate::text::decimal_of;
use crate::text::decimal_string;
use crate::text::clone_string_vec;

verus! {

/// One decoded evaluator response, tagged as the wire protocol tags it:
/// a scalar, an attribute set (child names), a list (child count), or a
/// per-path error.
#[derive(Debug)]
pub enum NixValue {
    Thunk,
    Int(i64),
    Float(String),
    Bool(bool),
    String(String),
    Path(String),
    Null,
    Attrs(Vec<String>),
    List(usize),
    Function,
    External,
    Error(String),
}

/// An ordered list of child names together with the cursor the user last
/// left on it.  The cursor lives here so that a refreshed list keeps the
/// user's position.
#[derive(Debug)]
pub struct ListData {
    pub cursor: usize,
    pub list: Vec<String>,
}

/// The mathematical content of a cached list.
#[verifier::ext_equal]
pub struct ListDataV {
    pub cursor: int,
    pub list: Seq<Seq<char>>,
}

impl View for ListData {
    type V = ListDataV;

    open spec fn view(&self) -> ListDataV {
        ListDataV { cursor: self.cursor as int, list: self.list.deep_view() }
    }
}

impl ListData {
    /// The cursor points at an entry, or sits at zero in an empty list.
    pub open spec fn wf(&self) -> bool {
        spec_cursor_wf(self@.cursor, self@.list.len() as int)
    }

    /// The path of the entry under the cursor, if the cursor points at
    /// one.
    pub fn selected(&self, current_path: &BrowserPath) -> (r: Option<BrowserPath>)
        ensures
            match r {
                Some(p) => self@.cursor < self@.list.len() && p@ == current_path@.push(
                    self@.list[self@.cursor],
                ),
                None => self@.cursor >= self@.list.len(),
            },
    {
        if self.cursor < self.list.len() {
            Some(current_path.child(self.list[self.cursor].clone()))
        } else {
            None
        }
    }
}

/// A cursor is valid for a list length: inside the list, or zero when the
/// list is empty.
pub open spec fn spec_cursor_wf(cursor: int, len: int) -> bool {
    if len == 0 {
        cursor == 0
    } else {
        0 <= cursor < len
    }
}

/// A cached node value: either still pending (`Loading`), a failure
/// scoped to that one path (`Error`), or the decoded value.
#[derive(Debug)]
pub enum PathData {
    List(ListData),
    Thunk,
    Int(i64),
    Float(String),
    Bool(bool),
    String(String),
    Path(String),
    Null,
    Function,
    External,
    Error(String),
    Loading,
}

/// The mathematical content of a cached node value.
#[verifier::ext_equal]
pub enum PathDataV {
    List(ListDataV),
    Thunk,
    Int(i64),
    Float(Seq<char>),
    Bool(bool),
    String(Seq<char>),
    Path(Seq<char>),
    Null,
    Function,
    External,
    Error(Seq<char>),
    Loading,
}

impl View for PathData {
    type V = PathDataV;

    open spec fn view(&self) -> PathDataV {
        match self {
            PathData::List(l) => PathDataV::List(l@),
            PathData::Thunk => PathDataV::Thunk,
            PathData::Int(i) => PathDataV::Int(*i),
            PathData::Float(s) => PathDataV::Float(s@),
            PathData::Bool(b) => PathDataV::Bool(*b),
            PathData::String(s) => PathDataV::String(s@),
            PathData::Path(s) => PathDataV::Path(s@),
            PathData::Null => PathDataV::Null,
            PathData::Function => PathDataV::Function,
            PathData::External => PathDataV::External,
            PathData::Error(s) => PathDataV::Error(s@),
            PathData::Loading => PathDataV::Loading,
        }
    }
}

/// A list value keeps its cursor valid; every other value is trivially
/// well-formed.
pub open spec fn path_data_wf(v: PathDataV) -> bool {
    match v {
        PathDataV::List(l) => spec_cursor_wf(l.cursor, l.list.len() as int),
        _ => true,
    }
}

/// The cache entry a freshly decoded evaluator response turns into:
/// attribute sets become lists of their child names, lists become lists
/// of decimal indices with the cursor at the top, everything else maps
/// across unchanged.
pub open spec fn spec_decode(v: NixValue) -> PathDataV {
    match v {
        NixValue::Thunk => PathDataV::Thunk,
        NixValue::Int(i) => PathDataV::Int(i),
        NixValue::Float(s) => PathDataV::Float(s@),
        NixValue::Bool(b) => PathDataV::Bool(b),
        NixValue::String(s) => PathDataV::String(s@),
        NixValue::Path(s) => PathDataV::Path(s@),
        NixValue::Null => PathDataV::Null,
        NixValue::Attrs(names) => PathDataV::List(
            ListDataV { cursor: 0, list: names.deep_view() },
        ),
        NixValue::List(n) => PathDataV::List(
            ListDataV { cursor: 0, list: Seq::new(n as nat, |i: int| decimal_of(i)) },
        ),
        NixValue::Function => PathDataV::Function,
        NixValue::External => PathDataV::External,
        NixValue::Error(s) => PathDataV::Error(s@),
    }
}

/// The synthesized child names of a list of `n` elements: the decimal
/// strings `"0"` through `"n-1"`, in order.
fn index_names(n: usize) -> (r: Vec<String>)
    ensures
        r.deep_view() == Seq::new(n as nat, |i: int| decimal_of(i)),
{
    let mut out: Vec<String> = Vec::new();
    let mut i: usize = 0;
    while i < n
        invariant
            i <= n,
            out.deep_view() == Seq::new(i as nat, |k: int| decimal_of(k)),
        decreases n - i,
    {
        let ghost pre = out.deep_view();
        out.push(decimal_string(i));
        proof {
            assert(out.deep_view() =~= pre.push(decimal_of(i as int)));
            assert(pre.push(decimal_of(i as int)) =~= Seq::new(
                (i + 1) as nat,
                |k: int| decimal_of(k),
            ));
        }
        i += 1;
    }
    out
}

impl PathData {
    /// Decodes one evaluator response into the value the cache stores.
    pub fn from_nix_value(v: NixValue) -> (r: PathData)
        ensures
            r@ == spec_decode(v),
            path_data_wf(r@),
    {
        match v {
            NixValue::Thunk => PathData::Thunk,
            NixValue::Int(i) => PathData::Int(i),
            NixValue::Float(s) => PathData::Float(s),
            NixValue::Bool(b) => PathData::Bool(b),
            NixValue::String(s) => PathData::String(s),
            NixValue::Path(s) => PathData::Path(s),
            NixValue::Null => PathData::Null,
            NixValue::Attrs(names) => PathData::List(ListData { cursor: 0, list: names }),
            NixValue::List(n) => PathData::List(ListData { cursor: 0, list: index_names(n) }),
            NixValue::Function => PathData::Function,
            NixValue::External => PathData::External,
            NixValue::Error(s) => PathData::Error(s),
        }
    }

    /// The short type label shown in list frames.
    pub fn get_type(&self) -> (r: String)
        ensures
            r@ == spec_type_name(self@),
    {
        proof {
            reveal_strlit("List");
            reveal_strlit("Thunk");
            reveal_strlit("Int");
            reveal_strlit("Float");
            reveal_strlit("Bool");
            reveal_strlit("String");
            reveal_strlit("Path");
            reveal_strlit("Null");
            reveal_strlit("Function");
            reveal_strlit("External");
            reveal_strlit("Error");
            reveal_strlit("Loading");
        }
        match self {
            PathData::List(_) => String::from_str("List"),
            PathData::Thunk => String::from_str("Thunk"),
            PathData::Int(_) => String::from_str("Int"),
            PathData::Float(_) => String::from_str("Float"),
            PathData::Bool(_) => String::from_str("Bool"),
            PathData::String(_) => String::from_str("String"),
            PathData::Path(_) => String::from_str("Path"),
            PathData::Null => String::from_str("Null"),
            PathData::Function => String::from_str("Function"),
            PathData::External => String::from_str("External"),
            PathData::Error(_) => String::from_str("Error"),
            PathData::Loading => String::from_str("Loading"),
        }
    }
}

/// The type label of each value variant.
pub open spec fn spec_type_name(v: PathDataV) -> Seq<char> {
    match v {
        PathDataV::List(_) => "List"@,
        PathDataV::Thunk => "Thunk"@,
        PathDataV::Int(_) => "Int"@,
        PathDataV::Float(_) => "Float"@,
        PathDataV::Bool(_) => "Bool"@,
        PathDataV::String(_) => "String"@,
        PathDataV::Path(_) => "Path"@,
        PathDataV::Null => "Null"@,
        PathDataV::Function => "Function"@,
        PathDataV::External => "External"@,
        PathDataV::Error(_) => "Error"@,
        PathDataV::Loading => "Loading"@,
    }
}

impl Clone for ListData {
    fn clone(&self) -> (r: Self)
        ensures
            r@ == self@,
    {
        ListData { cursor: self.cursor, list: clone_string_vec(&self.list) }
    }
}

} // verus!
