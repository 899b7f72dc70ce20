//! JSON values, as far as the interface of a program is written with them:
//! numbers are sizes.

use vstd::prelude::*;
use crate::collections::{lemma_named_position_is, named_position};
use crate::text::str_eq;

verus! {

/// A JSON value. An object holds its entries in the order in which they are
/// written.
#[derive(Debug, PartialEq)]
pub enum Json {
    Null,
    Flag(bool),
    Number(usize),
    Text(String),
    List(Vec<Json>),
    Object(Vec<(String, Json)>),
}

pub enum JsonView {
    Null,
    Flag(bool),
    Number(nat),
    Text(Seq<char>),
    List(Seq<JsonView>),
    Object(Seq<(Seq<char>, JsonView)>),
}

/// The views of the values of a list.
pub open spec fn list_model(list: &Vec<Json>) -> Seq<JsonView>
    decreases list,
{
    Seq::new(
        list.len() as nat,
        |i: int|
            if 0 <= i < list.len() {
                list[i].model()
            } else {
                JsonView::Null
            },
    )
}

/// The views of the entries of an object.
pub open spec fn entries_model(entries: &Vec<(String, Json)>) -> Seq<(Seq<char>, JsonView)>
    decreases entries,
{
    Seq::new(
        entries.len() as nat,
        |i: int|
            if 0 <= i < entries.len() {
                (entries[i].0@, entries[i].1.model())
            } else {
                (Seq::empty(), JsonView::Null)
            },
    )
}

impl Json {
    pub open spec fn model(&self) -> JsonView
        decreases self,
    {
        match self {
            Json::Null => JsonView::Null,
            Json::Flag(b) => JsonView::Flag(*b),
            Json::Number(n) => JsonView::Number(*n as nat),
            Json::Text(s) => JsonView::Text(s@),
            Json::List(list) => JsonView::List(list_model(list)),
            Json::Object(entries) => JsonView::Object(entries_model(entries)),
        }
    }
}

impl View for Json {
    type V = JsonView;

    open spec fn view(&self) -> JsonView {
        self.model()
    }
}

/// What stands under a key among the entries of an object: the value of the
/// first entry with that key.
pub open spec fn value_at(entries: Seq<(Seq<char>, JsonView)>, key: Seq<char>) -> Option<JsonView> {
    let at = named_position(entries, key);
    if 0 <= at < entries.len() {
        Some(entries[at].1)
    } else {
        None
    }
}

/// The position of the first entry with the key, if there is one.
pub fn find_entry(entries: &Vec<(String, Json)>, key: &str) -> (r: Option<usize>)
    ensures
        match r {
            Some(i) => i < entries.len() && i == named_position(entries_model(entries), key@),
            None => named_position(entries_model(entries), key@) == entries.len(),
        },
{
    let ghost views = entries_model(entries);
    let mut i: usize = 0;
    while i < entries.len()
        invariant
            i <= entries.len(),
            views == entries_model(entries),
            forall|j: int| 0 <= j < i ==> (#[trigger] views[j]).0 != key@,
        decreases entries.len() - i,
    {
        if str_eq(entries[i].0.as_str(), key) {
            proof {
                assert(views[i as int].0 == key@);
                lemma_named_position_is(views, key@, i as int);
            }
            return Some(i);
        }
        assert(views[i as int].0 != key@);
        i += 1;
    }
    proof {
        lemma_named_position_is(views, key@, entries.len() as int);
    }
    None
}

} // verus!
