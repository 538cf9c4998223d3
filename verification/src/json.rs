//! JSON documents as plain values. Text is parsed by `serde_json`; what it
//! gives is copied into a document level by level, and everything that reads
//! or builds a document is verified here.

use crate::text::same_text;
use vstd::prelude::*;

verus! {

/// A JSON document.
#[derive(Debug, PartialEq, Eq)]
pub enum Json {
    Null,
    Bool(bool),
    /// `Some(n)` is the non-negative integer `n`. `None` stands for every other
    /// number (negative, fractional or too large), whose value is not kept.
    Number(Option<u64>),
    Text(String),
    Array(Vec<Json>),
    /// The members of an object, in the order in which they are held.
    Object(Vec<(String, Json)>),
}

/// The mathematical value of a [`Json`] document.
pub enum JsonView {
    Null,
    Bool(bool),
    Number(Option<u64>),
    Text(Seq<char>),
    Array(Seq<JsonView>),
    Object(Seq<(Seq<char>, JsonView)>),
}

/// The mathematical value of a document.
pub open spec fn json_view(doc: Json) -> JsonView
    decreases doc,
{
    match doc {
        Json::Null => JsonView::Null,
        Json::Bool(b) => JsonView::Bool(b),
        Json::Number(n) => JsonView::Number(n),
        Json::Text(s) => JsonView::Text(s@),
        Json::Array(items) => JsonView::Array(
            Seq::new(
                items@.len(),
                |i: int|
                    if 0 <= i < items@.len() {
                        json_view(items@[i])
                    } else {
                        JsonView::Null
                    },
            ),
        ),
        Json::Object(members) => JsonView::Object(
            Seq::new(
                members@.len(),
                |i: int|
                    if 0 <= i < members@.len() {
                        (members@[i].0@, json_view(members@[i].1))
                    } else {
                        (Seq::empty(), JsonView::Null)
                    },
            ),
        ),
    }
}

impl View for Json {
    type V = JsonView;

    open spec fn view(&self) -> JsonView {
        json_view(*self)
    }
}

/// The value of the first member named `key`, if there is one.
pub open spec fn member(members: Seq<(Seq<char>, JsonView)>, key: Seq<char>) -> Option<JsonView>
    decreases members.len(),
{
    if members.len() == 0 {
        None
    } else if members[0].0 == key {
        Some(members[0].1)
    } else {
        member(members.drop_first(), key)
    }
}

impl JsonView {
    /// The member `key` of an object; `None` for anything that is no object or
    /// has no such member.
    pub open spec fn field(self, key: Seq<char>) -> Option<JsonView> {
        match self {
            JsonView::Object(members) => member(members, key),
            _ => None,
        }
    }

    /// The characters of a JSON string; `None` for anything else.
    pub open spec fn text(self) -> Option<Seq<char>> {
        match self {
            JsonView::Text(s) => Some(s),
            _ => None,
        }
    }

    /// The value of a non-negative integer; `None` for anything else.
    pub open spec fn unsigned(self) -> Option<u64> {
        match self {
            JsonView::Number(n) => n,
            _ => None,
        }
    }

    /// The text of the member `key`, where that member is a JSON string.
    pub open spec fn text_field(self, key: Seq<char>) -> Option<Seq<char>> {
        match self.field(key) {
            Some(v) => v.text(),
            None => None,
        }
    }
}

/// The view of an object is the views of its members, in their order.
pub proof fn lemma_object_view(members: Vec<(String, Json)>, views: Seq<(Seq<char>, JsonView)>)
    requires
        views.len() == members@.len(),
        forall|i: int|
            0 <= i < views.len() ==> #[trigger] views[i] == (members@[i].0@, members@[i].1@),
    ensures
        Json::Object(members)@ == JsonView::Object(views),
{
    assert(Json::Object(members)@->Object_0 =~= views);
}

/// The view of an array is the views of its items, in their order.
pub proof fn lemma_array_view(items: Vec<Json>, views: Seq<JsonView>)
    requires
        views.len() == items@.len(),
        forall|i: int| 0 <= i < views.len() ==> #[trigger] views[i] == items@[i]@,
    ensures
        Json::Array(items)@ == JsonView::Array(views),
{
    assert(Json::Array(items)@->Array_0 =~= views);
}

/// The deepest nesting of arrays and objects that is read. `serde_json` reads
/// no text that is nested deeper.
pub const MAX_DEPTH: usize = 128;

/// `serde_json::Value`: a parsed document that has not been looked into yet.
#[verifier::external_type_specification]
#[verifier::external_body]
pub struct ExValue(serde_json::Value);

/// `serde_json::Error`, of which only its presence is used.
#[verifier::external_type_specification]
#[verifier::external_body]
pub struct ExError(serde_json::Error);

/// `serde_json::Number`: the number that a parsed document holds.
#[verifier::external_type_specification]
#[verifier::external_body]
pub struct ExNumber(serde_json::Number);

/// `serde_json::Map`: the members of a parsed object.
#[verifier::external_type_specification]
#[verifier::external_body]
#[verifier::reject_recursive_types(K)]
#[verifier::reject_recursive_types(V)]
pub struct ExMap<K, V>(serde_json::Map<K, V>);

/// The outermost level of a parsed document: what kind of value it is, and
/// what it holds, which has not been looked into.
enum Node<'a> {
    Null,
    Bool(bool),
    Number(&'a serde_json::Number),
    Text(&'a String),
    Array(&'a Vec<serde_json::Value>),
    Object(&'a serde_json::Map<String, serde_json::Value>),
}

/// The view of the outermost level of a parsed document.
pub enum NodeView {
    Null,
    Bool(bool),
    Number(serde_json::Number),
    Text(Seq<char>),
    Array(Seq<serde_json::Value>),
    Object(serde_json::Map<String, serde_json::Value>),
}

impl<'a> View for Node<'a> {
    type V = NodeView;

    closed spec fn view(&self) -> NodeView {
        match self {
            Node::Null => NodeView::Null,
            Node::Bool(b) => NodeView::Bool(*b),
            Node::Number(n) => NodeView::Number(**n),
            Node::Text(s) => NodeView::Text(s@),
            Node::Array(items) => NodeView::Array(items@),
            Node::Object(members) => NodeView::Object(**members),
        }
    }
}

/// The names and values of members that have been handed out.
pub open spec fn member_views(members: Seq<(&String, &serde_json::Value)>) -> Seq<
    (Seq<char>, serde_json::Value),
> {
    members.map_values(|member: (&String, &serde_json::Value)| (member.0@, *member.1))
}

/// The value that `serde_json::from_str` reads out of a text, or `None` where
/// it reports an error. Nothing is stated about which texts are JSON: that is
/// `serde_json`'s business.
pub uninterp spec fn value_of_text(text: Seq<char>) -> Option<serde_json::Value>;

/// The variant of a `serde_json::Value`, with what the variant holds.
pub uninterp spec fn node_of_value(value: serde_json::Value) -> NodeView;

/// What `serde_json::Number::as_u64` returns for a number: its value where
/// it is a non-negative integer that fits, and `None` for every other number.
pub uninterp spec fn number_u64(number: serde_json::Number) -> Option<u64>;

/// The members of a `serde_json::Map`, in the order of `serde_json::Map::iter`.
pub uninterp spec fn map_members(map: serde_json::Map<String, serde_json::Value>) -> Seq<
    (Seq<char>, serde_json::Value),
>;

/// `serde_json::from_str` at the type `serde_json::Value`. Not proved: that the
/// outcome depends on the characters of the text alone, which is what makes
/// [`value_of_text`] a function.
#[verifier::external_body]
fn value_from_text(text: &str) -> (parsed: Result<serde_json::Value, serde_json::Error>)
    ensures
        match parsed {
            Ok(value) => value_of_text(text@) == Some(value),
            Err(_) => value_of_text(text@) is None,
        },
{
    serde_json::from_str::<serde_json::Value>(text)
}

/// Tells the variants of a `serde_json::Value` apart and hands out what the
/// variant holds, as it is. Not proved: nothing but that the same value
/// always gives the same.
#[verifier::external_body]
fn unpack<'a>(value: &'a serde_json::Value) -> (node: Node<'a>)
    ensures
        node@ == node_of_value(*value),
{
    match value {
        serde_json::Value::Null => Node::Null,
        serde_json::Value::Bool(b) => Node::Bool(*b),
        serde_json::Value::Number(n) => Node::Number(n),
        serde_json::Value::String(s) => Node::Text(s),
        serde_json::Value::Array(items) => Node::Array(items),
        serde_json::Value::Object(members) => Node::Object(members),
    }
}

/// `serde_json::Number::as_u64`. Not proved: that the outcome depends on the
/// number alone.
#[verifier::external_body]
fn number_as_u64(number: &serde_json::Number) -> (unsigned: Option<u64>)
    ensures
        unsigned == number_u64(*number),
{
    number.as_u64()
}

/// `serde_json::Map::iter`, with what it yields gathered in its order. Not
/// proved: that the outcome depends on the map alone.
#[verifier::external_body]
fn members_of<'a>(map: &'a serde_json::Map<String, serde_json::Value>) -> (members: Vec<
    (&'a String, &'a serde_json::Value),
>)
    ensures
        member_views(members@) == map_members(*map),
{
    map.iter().collect()
}

/// The document that a parsed value holds, read down to `depth` levels of
/// arrays and objects; `None` where the value is nested deeper.
pub open spec fn lifted(value: serde_json::Value, depth: nat) -> Option<JsonView>
    decreases depth,
{
    match node_of_value(value) {
        NodeView::Null => Some(JsonView::Null),
        NodeView::Bool(b) => Some(JsonView::Bool(b)),
        NodeView::Number(n) => Some(JsonView::Number(number_u64(n))),
        NodeView::Text(s) => Some(JsonView::Text(s)),
        NodeView::Array(items) => if depth > 0 && (forall|i: int|
            0 <= i < items.len() ==> lifted(#[trigger] items[i], (depth - 1) as nat) is Some) {
            Some(
                JsonView::Array(
                    Seq::new(items.len(), |i: int| lifted(items[i], (depth - 1) as nat)->Some_0),
                ),
            )
        } else {
            None
        },
        NodeView::Object(map) => {
            let members = map_members(map);
            if depth > 0 && (forall|i: int|
                0 <= i < members.len() ==> lifted((#[trigger] members[i]).1, (depth - 1) as nat)
                    is Some) {
                Some(
                    JsonView::Object(
                        Seq::new(
                            members.len(),
                            |i: int|
                                (members[i].0, lifted(members[i].1, (depth - 1) as nat)->Some_0),
                        ),
                    ),
                )
            } else {
                None
            }
        },
    }
}

/// The document that a text holds: what `serde_json` reads out of it, down to
/// [`MAX_DEPTH`] levels. `None` where the text is no JSON.
pub open spec fn json_of_text(text: Seq<char>) -> Option<JsonView> {
    match value_of_text(text) {
        Some(value) => lifted(value, MAX_DEPTH as nat),
        None => None,
    }
}

/// Copies a parsed value into a document, down to `depth` levels.
fn lift(value: &serde_json::Value, depth: usize) -> (doc: Option<Json>)
    ensures
        match doc {
            Some(d) => lifted(*value, depth as nat) == Some(d@),
            None => lifted(*value, depth as nat) is None,
        },
    decreases depth,
{
    match unpack(value) {
        Node::Null => Some(Json::Null),
        Node::Bool(b) => Some(Json::Bool(b)),
        Node::Number(n) => Some(Json::Number(number_as_u64(n))),
        Node::Text(s) => Some(Json::Text(s.clone())),
        Node::Array(items) => {
            if depth == 0 {
                return None;
            }
            let mut docs: Vec<Json> = Vec::new();
            let mut i: usize = 0;
            while i < items.len()
                invariant
                    depth > 0,
                    i <= items.len(),
                    docs@.len() == i,
                    node_of_value(*value) == NodeView::Array(items@),
                    forall|j: int|
                        0 <= j < i ==> lifted(#[trigger] items@[j], (depth - 1) as nat) == Some(
                            docs@[j]@,
                        ),
                decreases items.len() - i,
            {
                match lift(&items[i], depth - 1) {
                    Some(doc) => {
                        docs.push(doc);
                    },
                    None => {
                        assert(lifted(items@[i as int], (depth - 1) as nat) is None);
                        return None;
                    },
                }
                i += 1;
            }
            proof {
                lemma_array_view(docs, lifted(*value, depth as nat)->Some_0->Array_0);
            }
            Some(Json::Array(docs))
        },
        Node::Object(map) => {
            if depth == 0 {
                return None;
            }
            let members = members_of(map);
            let ghost held = map_members(*map);
            assert(held.len() == members@.len());
            let mut docs: Vec<(String, Json)> = Vec::new();
            let mut i: usize = 0;
            while i < members.len()
                invariant
                    depth > 0,
                    i <= members.len(),
                    docs@.len() == i,
                    node_of_value(*value) == NodeView::Object(*map),
                    held == map_members(*map),
                    held == member_views(members@),
                    forall|j: int|
                        0 <= j < i ==> docs@[j].0@ == (#[trigger] held[j]).0 && lifted(
                            held[j].1,
                            (depth - 1) as nat,
                        ) == Some(docs@[j].1@),
                decreases members.len() - i,
            {
                match lift(members[i].1, depth - 1) {
                    Some(doc) => {
                        docs.push((members[i].0.clone(), doc));
                    },
                    None => {
                        assert(lifted(held[i as int].1, (depth - 1) as nat) is None);
                        return None;
                    },
                }
                i += 1;
            }
            proof {
                assert(lifted(*value, depth as nat) is Some);
                let views = lifted(*value, depth as nat)->Some_0->Object_0;
                assert forall|j: int| 0 <= j < views.len() implies #[trigger] views[j] == (
                    docs@[j].0@,
                    docs@[j].1@,
                ) by {
                    assert(docs@[j].0@ == held[j].0);
                }
                lemma_object_view(docs, views);
            }
            Some(Json::Object(docs))
        },
    }
}

impl Json {
    /// A JSON string that holds a copy of `text`.
    pub fn text(text: &str) -> (doc: Json)
        ensures
            doc@ == JsonView::Text(text@),
    {
        Json::Text(text.to_owned())
    }

    /// Looks a member of an object up by its name.
    pub fn field(&self, key: &str) -> (found: Option<&Json>)
        ensures
            match found {
                Some(v) => self@.field(key@) == Some(v@),
                None => self@.field(key@) is None,
            },
    {
        match self {
            Json::Object(members) => {
                assert(self@->Object_0.skip(0) =~= self@->Object_0);
                let mut i: usize = 0;
                while i < members.len()
                    invariant
                        i <= members.len(),
                        self@ is Object,
                        self@->Object_0.len() == members@.len(),
                        forall|j: int|
                            0 <= j < members@.len() ==> self@->Object_0[j] == (
                                #[trigger] members@[j].0@,
                                members@[j].1@,
                            ),
                        member(self@->Object_0, key@) == member(
                            self@->Object_0.skip(i as int),
                            key@,
                        ),
                    decreases members.len() - i,
                {
                    let ghost rest = self@->Object_0.skip(i as int);
                    assert(rest.len() > 0);
                    assert(rest[0] == self@->Object_0[i as int]);
                    assert(rest.drop_first() == self@->Object_0.skip(i as int + 1));
                    if same_text(members[i].0.as_str(), key) {
                        return Some(&members[i].1);
                    }
                    i += 1;
                }
                None
            },
            _ => None,
        }
    }

    /// The text of a JSON string.
    pub fn as_text(&self) -> (found: Option<&String>)
        ensures
            match found {
                Some(s) => self@.text() == Some(s@),
                None => self@.text() is None,
            },
    {
        match self {
            Json::Text(s) => Some(s),
            _ => None,
        }
    }

    /// The value of a non-negative integer.
    pub fn as_u64(&self) -> (found: Option<u64>)
        ensures
            found == self@.unsigned(),
    {
        match self {
            Json::Number(n) => *n,
            _ => None,
        }
    }

    /// A copy of the text of the member `key`, where that member is a JSON string.
    pub fn text_field(&self, key: &str) -> (found: Option<String>)
        ensures
            match found {
                Some(s) => self@.text_field(key@) == Some(s@),
                None => self@.text_field(key@) is None,
            },
    {
        match self.field(key) {
            Some(v) => match v.as_text() {
                Some(s) => Some(s.clone()),
                None => None,
            },
            None => None,
        }
    }

    /// Reads a text as JSON. `None` means that the text is not a JSON document.
    pub fn parse(text: &str) -> (doc: Option<Json>)
        ensures
            match doc {
                Some(d) => json_of_text(text@) == Some(d@),
                None => json_of_text(text@) is None,
            },
    {
        match value_from_text(text) {
            Ok(value) => lift(&value, MAX_DEPTH),
            Err(_) => None,
        }
    }
}

} // verus!
