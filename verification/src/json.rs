//! JSON values as plain data, and their parsing.

use vstd::prelude::*;

use crate::text::same;

verus! {

/// A JSON value. The entries of an object stand in the order in which its parser hands them out.
#[derive(Debug, PartialEq)]
pub enum Json {
    Null,
    Bool(bool),
    /// A number that is an integer between zero and the largest `u64`.
    Uint(u64),
    /// Any other number, carried as it came.
    Number(serde_json::Number),
    Str(String),
    Array(Vec<Json>),
    Object(Vec<(String, Json)>),
}

/// What a [`Json`] holds.
pub enum JsonView {
    Null,
    Bool(bool),
    Uint(u64),
    Number(serde_json::Number),
    Str(Seq<char>),
    Array(Seq<JsonView>),
    Object(Seq<(Seq<char>, JsonView)>),
}

/// The value of the first entry under `key`.
pub open spec fn lookup(entries: Seq<(Seq<char>, JsonView)>, key: Seq<char>) -> Option<JsonView>
    decreases entries.len(),
{
    if entries.len() == 0 {
        None
    } else if entries[0].0 == key {
        Some(entries[0].1)
    } else {
        lookup(entries.drop_first(), key)
    }
}

/// No two entries share a key.
pub open spec fn distinct_keys(entries: Seq<(Seq<char>, JsonView)>) -> bool {
    forall|i: int, j: int|
        0 <= i < j < entries.len() ==> (#[trigger] entries[i]).0 != (#[trigger] entries[j]).0
}

impl JsonView {
    /// The member of an object under `key`; nothing for any other value.
    pub open spec fn get(self, key: Seq<char>) -> Option<JsonView> {
        match self {
            JsonView::Object(entries) => lookup(entries, key),
            _ => None,
        }
    }

    pub open spec fn as_str(self) -> Option<Seq<char>> {
        match self {
            JsonView::Str(s) => Some(s),
            _ => None,
        }
    }

    /// The member under `key`, where it is a string.
    pub open spec fn str_at(self, key: Seq<char>) -> Option<Seq<char>> {
        match self.get(key) {
            Some(member) => member.as_str(),
            None => None,
        }
    }

    /// At every depth, the keys of an object are distinct, and a number that is an integer from
    /// zero to the largest `u64` is held as such.
    pub open spec fn well_formed(self) -> bool
        decreases self,
    {
        match self {
            JsonView::Number(n) => number_as_u64(n) is None,
            JsonView::Array(items) => forall|i: int|
                0 <= i < items.len() ==> (#[trigger] items[i]).well_formed(),
            JsonView::Object(entries) => {
                &&& distinct_keys(entries)
                &&& forall|i: int|
                    0 <= i < entries.len() ==> (#[trigger] entries[i]).1.well_formed()
            },
            _ => true,
        }
    }
}

/// What `j` holds, at every depth.
pub open spec fn json_view(j: Json) -> JsonView
    decreases j,
{
    match j {
        Json::Null => JsonView::Null,
        Json::Bool(b) => JsonView::Bool(b),
        Json::Uint(n) => JsonView::Uint(n),
        Json::Number(n) => JsonView::Number(n),
        Json::Str(s) => JsonView::Str(s@),
        Json::Array(items) => JsonView::Array(
            Seq::new(
                items@.len(),
                |i: int|
                    if 0 <= i < items.len() {
                        json_view(items[i])
                    } else {
                        JsonView::Null
                    },
            ),
        ),
        Json::Object(entries) => JsonView::Object(
            Seq::new(
                entries@.len(),
                |i: int|
                    if 0 <= i < entries.len() {
                        (entries[i].0@, json_view(entries[i].1))
                    } else {
                        (Seq::empty(), JsonView::Null)
                    },
            ),
        ),
    }
}

impl DeepView for Json {
    type V = JsonView;

    open spec fn deep_view(&self) -> JsonView {
        json_view(*self)
    }
}

impl Clone for Json {
    fn clone(&self) -> (r: Self)
        ensures
            r.deep_view() == self.deep_view(),
        decreases self,
    {
        match self {
            Json::Null => Json::Null,
            Json::Bool(b) => Json::Bool(*b),
            Json::Uint(n) => Json::Uint(*n),
            Json::Number(n) => Json::Number(clone_number(n)),
            Json::Str(s) => Json::Str(s.clone()),
            Json::Array(items) => {
                let mut out: Vec<Json> = Vec::new();
                for i in 0..items.len()
                    invariant
                        *self == Json::Array(*items),
                        out@.len() == i,
                        forall|k: int|
                            0 <= k < i ==> json_view(#[trigger] out@[k]) == json_view(items@[k]),
                {
                    assert(decreases_to!(*self => self->Array_0));
                    assert(decreases_to!(*items => items[i as int]));
                    out.push(items[i].clone());
                }
                let r = Json::Array(out);
                assert(json_view(r)->Array_0 =~= json_view(*self)->Array_0);
                r
            },
            Json::Object(entries) => {
                let mut out: Vec<(String, Json)> = Vec::new();
                for i in 0..entries.len()
                    invariant
                        *self == Json::Object(*entries),
                        out@.len() == i,
                        forall|k: int|
                            0 <= k < i ==> (#[trigger] out@[k]).0@ == entries@[k].0@ && json_view(
                                out@[k].1,
                            ) == json_view(entries@[k].1),
                {
                    let entry = &entries[i];
                    assert(decreases_to!(*self => self->Object_0));
                    assert(decreases_to!(*entries => entries[i as int]));
                    assert(decreases_to!(*entry => entry.1));
                    out.push((entry.0.clone(), entry.1.clone()));
                }
                let r = Json::Object(out);
                assert(json_view(r)->Object_0 =~= json_view(*self)->Object_0);
                r
            },
        }
    }
}

impl Json {
    /// The member of an object under `key`; nothing for any other value.
    pub fn get(&self, key: &str) -> (r: Option<&Json>)
        ensures
            r.deep_view() == self.deep_view().get(key@),
    {
        match self {
            Json::Object(entries) => {
                let ghost all = self.deep_view()->Object_0;
                assert(all.skip(0) == all);
                for i in 0..entries.len()
                    invariant
                        *self == Json::Object(*entries),
                        all == self.deep_view()->Object_0,
                        lookup(all, key@) == lookup(all.skip(i as int), key@),
                {
                    let entry = &entries[i];
                    assert(all.skip(i as int)[0] == (entry.0@, entry.1.deep_view()));
                    if same(entry.0.as_str(), key) {
                        return Some(&entry.1);
                    }
                    assert(all.skip(i as int).drop_first() == all.skip(i + 1));
                }
                None
            },
            _ => None,
        }
    }

    /// The text of a string; nothing for any other value.
    pub fn as_str(&self) -> (r: Option<&str>)
        ensures
            r.deep_view() == self.deep_view().as_str(),
    {
        match self {
            Json::Str(s) => Some(s.as_str()),
            _ => None,
        }
    }

    /// The text of the string under `key`; nothing where there is none.
    pub(crate) fn str_at(&self, key: &str) -> (r: Option<String>)
        ensures
            r.deep_view() == self.deep_view().str_at(key@),
    {
        match self.get(key) {
            Some(member) => match member.as_str() {
                Some(s) => Some(s.to_owned()),
                None => None,
            },
            None => None,
        }
    }
}

#[verifier::external_type_specification]
#[verifier::external_body]
pub struct ExNumber(serde_json::Number);

#[verifier::external_type_specification]
#[verifier::external_body]
pub struct ExValue(serde_json::Value);

/// What `serde_json::Number::as_u64` returns of a number.
pub uninterp spec fn number_as_u64(n: serde_json::Number) -> Option<u64>;

/// What a `serde_json::Value` holds: a tree with strings, numbers and truth values at its leaves.
pub uninterp spec fn value_view(v: serde_json::Value) -> JsonView;

/// What `serde_json::from_str` makes of a text: the value that the text writes, or the message of
/// the error.
pub uninterp spec fn parsed_json(text: Seq<char>) -> Result<JsonView, Seq<char>>;

/// One level of a `serde_json::Value`.
enum Level {
    Null,
    Bool(bool),
    Number(serde_json::Number),
    Str(String),
    Array(Vec<serde_json::Value>),
    Object(Vec<(String, serde_json::Value)>),
}

/// Clones a number with `serde_json::Number::clone`, which is derived: the clone is the same
/// number.
#[verifier::external_body]
fn clone_number(n: &serde_json::Number) -> (r: serde_json::Number)
    ensures
        r == *n,
{
    n.clone()
}

/// Calls `serde_json::Number::as_u64`.
#[verifier::external_body]
pub(crate) fn number_u64(n: &serde_json::Number) -> (r: Option<u64>)
    ensures
        r == number_as_u64(*n),
{
    n.as_u64()
}

/// Calls `serde_json::from_str`. The value that comes back holds what [`parsed_json`] names for
/// the text; where the text is refused, the error's message is the one that is named.
#[verifier::external_body]
fn value_from_str(text: &str) -> (r: Result<serde_json::Value, String>)
    ensures
        match r {
            Ok(v) => parsed_json(text@) == Ok::<JsonView, Seq<char>>(value_view(v)),
            Err(message) => parsed_json(text@) == Err::<JsonView, Seq<char>>(message@),
        },
{
    serde_json::from_str::<serde_json::Value>(text).map_err(|e| e.to_string())
}

/// Takes a `serde_json::Value` apart into its variant and that variant's fields. A number counts
/// as [`JsonView::Uint`] where `as_u64` gives one. The keys of an object are distinct, for it is
/// a `serde_json::Map`.
#[verifier::external_body]
fn level_of(v: serde_json::Value) -> (r: Level)
    ensures
        match r {
            Level::Null => value_view(v) == JsonView::Null,
            Level::Bool(b) => value_view(v) == JsonView::Bool(b),
            Level::Number(n) => value_view(v) == (match number_as_u64(n) {
                Some(u) => JsonView::Uint(u),
                None => JsonView::Number(n),
            }),
            Level::Str(s) => value_view(v) == JsonView::Str(s@),
            Level::Array(items) => value_view(v) == JsonView::Array(
                items@.map_values(|item: serde_json::Value| value_view(item)),
            ),
            Level::Object(entries) => value_view(v) == JsonView::Object(
                entries@.map_values(|e: (String, serde_json::Value)| (e.0@, value_view(e.1))),
            ) && distinct_keys(
                entries@.map_values(|e: (String, serde_json::Value)| (e.0@, value_view(e.1))),
            ),
        },
{
    match v {
        serde_json::Value::Null => Level::Null,
        serde_json::Value::Bool(b) => Level::Bool(b),
        serde_json::Value::Number(n) => Level::Number(n),
        serde_json::Value::String(s) => Level::Str(s),
        serde_json::Value::Array(items) => Level::Array(items),
        serde_json::Value::Object(map) => Level::Object(map.into_iter().collect()),
    }
}

/// The same tree as plain data.
fn from_value(v: serde_json::Value) -> (r: Json)
    ensures
        r.deep_view() == value_view(v),
        r.deep_view().well_formed(),
    decreases value_view(v),
{
    match level_of(v) {
        Level::Null => Json::Null,
        Level::Bool(b) => Json::Bool(b),
        Level::Number(n) => match number_u64(&n) {
            Some(u) => Json::Uint(u),
            None => Json::Number(n),
        },
        Level::Str(s) => Json::Str(s),
        Level::Array(items) => {
            let ghost held = items@.map_values(|item: serde_json::Value| value_view(item));
            let ghost all = items@;
            let mut out: Vec<Json> = Vec::new();
            for item in it: items
                invariant
                    it.seq() == all,
                    held == all.map_values(|item: serde_json::Value| value_view(item)),
                    value_view(v) == JsonView::Array(held),
                    out@.len() == it.index(),
                    forall|k: int|
                        0 <= k < out@.len() ==> json_view(#[trigger] out@[k]) == held[k]
                            && held[k].well_formed(),
            {
                assert(value_view(v)->Array_0[it.index() as int] == value_view(item));
                out.push(from_value(item));
            }
            let r = Json::Array(out);
            assert(json_view(r)->Array_0 =~= held);
            assert forall|k: int| 0 <= k < held.len() implies (#[trigger] held[k]).well_formed() by {
                assert(json_view(out@[k]) == held[k]);
            }
            r
        },
        Level::Object(entries) => {
            let ghost held = entries@.map_values(
                |e: (String, serde_json::Value)| (e.0@, value_view(e.1)),
            );
            let ghost all = entries@;
            let mut out: Vec<(String, Json)> = Vec::new();
            for entry in it: entries
                invariant
                    it.seq() == all,
                    held == all.map_values(
                        |e: (String, serde_json::Value)| (e.0@, value_view(e.1)),
                    ),
                    value_view(v) == JsonView::Object(held),
                    out@.len() == it.index(),
                    forall|k: int|
                        0 <= k < out@.len() ==> (#[trigger] out@[k]).0@ == held[k].0 && json_view(
                            out@[k].1,
                        ) == held[k].1 && held[k].1.well_formed(),
            {
                assert(value_view(v)->Object_0[it.index() as int] == (
                    entry.0@,
                    value_view(entry.1),
                ));
                assert(decreases_to!(value_view(v) => value_view(v)->Object_0));
                assert(decreases_to!(held => held[it.index() as int]));
                assert(decreases_to!(held[it.index() as int] => held[it.index() as int].1));
                out.push((entry.0, from_value(entry.1)));
            }
            let r = Json::Object(out);
            assert(json_view(r)->Object_0 =~= held);
            assert forall|k: int| 0 <= k < held.len() implies (
            #[trigger] held[k]).1.well_formed() by {
                assert(json_view(out@[k].1) == held[k].1);
            }
            r
        },
    }
}

/// Parses a text that writes one JSON value; the error is the parser's message.
pub fn parse_json(text: &str) -> (r: Result<Json, String>)
    ensures
        match r {
            Ok(j) => parsed_json(text@) == Ok::<JsonView, Seq<char>>(j.deep_view()),
            Err(message) => parsed_json(text@) == Err::<JsonView, Seq<char>>(message@),
        },
        r matches Ok(j) ==> j.deep_view().well_formed(),
{
    match value_from_str(text) {
        Ok(v) => Ok(from_value(v)),
        Err(message) => Err(message),
    }
}

}
