//! A JSON document as a value.
//!
//! The remote service speaks JSON. What it sends is read here as a tree of
//! plain values, so that the shape of a payload can be checked member by
//! member before anything is built from it.

use vstd::prelude::*;

verus! {

/// A JSON document.
///
/// A number is kept as the 64-bit integer that it denotes. A number that
/// denotes none (a fraction, an exponent, a magnitude out of that range) is
/// kept as its text, which nothing here reads. An object keeps its members in
/// the order in which they were written.
#[derive(Debug, PartialEq, Eq)]
pub enum Json {
    Null,
    Bool(bool),
    Integer(i64),
    Decimal(String),
    Text(String),
    Array(Vec<Json>),
    Object(Vec<(String, Json)>),
}

/// A [`Json`] as a mathematical value: strings are sequences of characters,
/// arrays and objects are sequences.
pub enum JsonView {
    Null,
    Bool(bool),
    Integer(int),
    Decimal(Seq<char>),
    Text(Seq<char>),
    Array(Seq<JsonView>),
    Object(Seq<(Seq<char>, JsonView)>),
}

impl View for Json {
    type V = JsonView;

    open spec fn view(&self) -> JsonView
        decreases self,
    {
        match self {
            Json::Null => JsonView::Null,
            Json::Bool(b) => JsonView::Bool(*b),
            Json::Integer(n) => JsonView::Integer(*n as int),
            Json::Decimal(text) => JsonView::Decimal(text@),
            Json::Text(text) => JsonView::Text(text@),
            Json::Array(items) => JsonView::Array(
                Seq::new(
                    items@.len(),
                    |i: int|
                        if 0 <= i < items@.len() {
                            items@[i]@
                        } else {
                            JsonView::Null
                        },
                ),
            ),
            Json::Object(members) => JsonView::Object(
                Seq::new(
                    members@.len(),
                    |i: int|
                        (
                            members@[i].0@,
                            if 0 <= i < members@.len() {
                                members@[i].1@
                            } else {
                                JsonView::Null
                            },
                        ),
                ),
            ),
        }
    }
}

/// The value of the first of `members` that is named `key`, if there is one.
pub open spec fn first_named(members: Seq<(Seq<char>, JsonView)>, key: Seq<char>) -> Option<
    JsonView,
>
    decreases members.len(),
{
    if members.len() == 0 {
        None
    } else if members[0].0 == key {
        Some(members[0].1)
    } else {
        first_named(members.skip(1), key)
    }
}

impl JsonView {
    /// The member named `key` of an object: the first, where the name occurs
    /// more than once. Anything but an object has no members.
    pub open spec fn member(self, key: Seq<char>) -> Option<JsonView> {
        match self {
            JsonView::Object(members) => first_named(members, key),
            _ => None,
        }
    }

    /// The characters of a string; nothing else has any.
    pub open spec fn text(self) -> Option<Seq<char>> {
        match self {
            JsonView::Text(text) => Some(text),
            _ => None,
        }
    }

    /// The value of an integer; nothing else has one.
    pub open spec fn integer(self) -> Option<int> {
        match self {
            JsonView::Integer(n) => Some(n),
            _ => None,
        }
    }

    /// The string that the member named `key` holds, if there is such a member
    /// and it is a string.
    pub open spec fn text_at(self, key: Seq<char>) -> Option<Seq<char>> {
        match self.member(key) {
            Some(value) => value.text(),
            None => None,
        }
    }

    /// The integer that the member named `key` holds, if there is such a member
    /// and it is an integer.
    pub open spec fn integer_at(self, key: Seq<char>) -> Option<int> {
        match self.member(key) {
            Some(value) => value.integer(),
            None => None,
        }
    }
}

impl Json {
    /// Looks up the member named `key`.
    pub fn get<'a>(&'a self, key: &str) -> (found: Option<&'a Json>)
        ensures
            match found {
                Some(value) => self@.member(key@) == Some(value@),
                None => self@.member(key@) is None,
            },
    {
        match self {
            Json::Object(members) => {
                let wanted = key.to_owned();
                let ghost all = self@->Object_0;
                proof {
                    assert(all.skip(0) == all);
                }
                let mut i: usize = 0;
                while i < members.len()
                    invariant
                        i <= members.len(),
                        wanted@ == key@,
                        self@ == JsonView::Object(all),
                        all.len() == members@.len(),
                        forall|j: int|
                            0 <= j < members@.len() ==> all[j] == (
                                members@[j].0@,
                                members@[j].1@,
                            ),
                        first_named(all, key@) == first_named(all.skip(i as int), key@),
                    decreases members.len() - i,
                {
                    proof {
                        let rest = all.skip(i as int);
                        assert(rest[0] == all[i as int]);
                        assert(rest.skip(1) == all.skip(i + 1));
                    }
                    if members[i].0 == wanted {
                        return Some(&members[i].1);
                    }
                    i += 1;
                }
                None
            },
            _ => None,
        }
    }

    /// Looks up the member named `key` and takes it for a string.
    pub fn text_at<'a>(&'a self, key: &str) -> (found: Option<&'a String>)
        ensures
            match found {
                Some(text) => self@.text_at(key@) == Some(text@),
                None => self@.text_at(key@) is None,
            },
    {
        match self.get(key) {
            Some(value) => value.as_text(),
            None => None,
        }
    }

    /// Looks up the member named `key` and takes it for an integer.
    pub fn integer_at(&self, key: &str) -> (found: Option<i64>)
        ensures
            match found {
                Some(n) => self@.integer_at(key@) == Some(n as int),
                None => self@.integer_at(key@) is None,
            },
    {
        match self.get(key) {
            Some(value) => value.as_integer(),
            None => None,
        }
    }

    /// The string, if the document is one.
    pub fn as_text(&self) -> (found: Option<&String>)
        ensures
            match found {
                Some(text) => self@.text() == Some(text@),
                None => self@.text() is None,
            },
    {
        match self {
            Json::Text(text) => Some(text),
            _ => None,
        }
    }

    /// The integer, if the document is one.
    pub fn as_integer(&self) -> (found: Option<i64>)
        ensures
            match found {
                Some(n) => self@.integer() == Some(n as int),
                None => self@.integer() is None,
            },
    {
        match self {
            Json::Integer(n) => Some(*n),
            _ => None,
        }
    }
}

} // verus!
