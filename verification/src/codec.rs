//! JSON documents to and from text, by `serde_json`.

use crate::json::{lemma_array_tree, member_map, Json, JsonView};
use vstd::prelude::*;

verus! {

/// A JSON document as `serde_json` holds it.
#[verifier::external_type_specification]
#[verifier::external_body]
pub struct ExValue(serde_json::Value);

/// Why `serde_json` rejected a text.
#[verifier::external_type_specification]
#[verifier::external_body]
pub struct ExSerdeError(serde_json::Error);

/// The document that a `serde_json::Value` holds.
pub uninterp spec fn value_tree(value: serde_json::Value) -> JsonView;

/// What `serde_json::from_str` makes of a text.
pub uninterp spec fn parsed(text: Seq<char>) -> Result<JsonView, serde_json::Error>;

/// A document as `serde_json` displays it, on one line. The members of an object come in the order
/// of their keys, for `serde_json` is used without its feature `preserve_order`.
pub uninterp spec fn compact_text(document: JsonView) -> Seq<char>;

/// A document as `serde_json::to_string_pretty` writes it; none where it reports an error. The
/// members of an object come in the order of their keys here too.
pub uninterp spec fn pretty_text(document: JsonView) -> Option<Seq<char>>;

/// How an error of `serde_json` displays itself.
pub uninterp spec fn serde_error_text(error: serde_json::Error) -> Seq<char>;

/// The outermost layer of a `serde_json::Value`, for reading.
enum Opened<'a> {
    Null,
    Bool(bool),
    Number(&'a serde_json::Number),
    Text(&'a String),
    Array(&'a Vec<serde_json::Value>),
    Object(Vec<(&'a String, &'a serde_json::Value)>),
}

/// The outermost layer of a `serde_json::Value`, for building one. An object gets its members one
/// by one, afterwards.
enum Parts {
    Null,
    Bool(bool),
    Number(serde_json::Number),
    Text(String),
    Array(Vec<serde_json::Value>),
    EmptyObject,
}

/// The object whose members are these, later ones taking the place of earlier ones.
spec fn opened_map(members: Seq<(&String, &serde_json::Value)>) -> Map<
    Seq<char>,
    JsonView,
>
    decreases members.len(),
{
    if members.len() == 0 {
        Map::empty()
    } else {
        opened_map(members.drop_last()).insert(members.last().0@, value_tree(*members.last().1))
    }
}

/// The items that these values hold.
spec fn value_trees(items: Seq<serde_json::Value>) -> Seq<JsonView> {
    items.map_values(|item: serde_json::Value| value_tree(item))
}

impl<'a> Opened<'a> {
    /// The document of which this is the outermost layer.
    spec fn tree(self) -> JsonView {
        match self {
            Opened::Null => JsonView::Null,
            Opened::Bool(b) => JsonView::Bool(b),
            Opened::Number(n) => JsonView::Number(*n),
            Opened::Text(s) => JsonView::Text(s@),
            Opened::Array(items) => JsonView::Array(value_trees(items@)),
            Opened::Object(members) => JsonView::Object(opened_map(members@)),
        }
    }
}

impl Parts {
    /// The document of which this is the outermost layer.
    spec fn tree(self) -> JsonView {
        match self {
            Parts::Null => JsonView::Null,
            Parts::Bool(b) => JsonView::Bool(b),
            Parts::Number(n) => JsonView::Number(n),
            Parts::Text(s) => JsonView::Text(s@),
            Parts::Array(items) => JsonView::Array(value_trees(items@)),
            Parts::EmptyObject => JsonView::Object(Map::empty()),
        }
    }
}

/// No two members have the same key.
spec fn distinct_keys(members: Seq<(&String, &serde_json::Value)>) -> bool {
    forall|i: int, j: int|
        0 <= i < j < members.len() ==> #[trigger] members[i].0@ != #[trigger] members[j].0@
}

/// Reads the outermost layer of a `serde_json::Value`: its variant with what it holds. The
/// members of an object come from `Map::iter` of `serde_json`, each key once.
#[verifier::external_body]
fn open_value(value: &serde_json::Value) -> (layer: Opened<'_>)
    ensures
        layer.tree() == value_tree(*value),
        layer matches Opened::Object(members) ==> distinct_keys(members@),
{
    match value {
        serde_json::Value::Null => Opened::Null,
        serde_json::Value::Bool(b) => Opened::Bool(*b),
        serde_json::Value::Number(n) => Opened::Number(n),
        serde_json::Value::String(s) => Opened::Text(s),
        serde_json::Value::Array(items) => Opened::Array(items),
        serde_json::Value::Object(map) => Opened::Object(map.iter().collect()),
    }
}

/// Builds the `serde_json::Value` that has this outermost layer: its variant with what it holds.
/// An object comes from `Map::new` of `serde_json` and has no members.
#[verifier::external_body]
fn build_value(layer: Parts) -> (value: serde_json::Value)
    ensures
        value_tree(value) == layer.tree(),
{
    match layer {
        Parts::Null => serde_json::Value::Null,
        Parts::Bool(b) => serde_json::Value::Bool(b),
        Parts::Number(n) => serde_json::Value::Number(n),
        Parts::Text(s) => serde_json::Value::String(s),
        Parts::Array(items) => serde_json::Value::Array(items),
        Parts::EmptyObject => serde_json::Value::Object(serde_json::Map::new()),
    }
}

/// `Map::insert` of `serde_json`, on the map of an object: the object has the member under that
/// key, in place of any that it had there, and its other members are unchanged.
#[verifier::external_body]
fn put_member(object: &mut serde_json::Value, key: String, member: serde_json::Value)
    requires
        value_tree(*old(object)) is Object,
    ensures
        value_tree(*final(object)) == JsonView::Object(
            value_tree(*old(object))->Object_0.insert(key@, value_tree(member)),
        ),
{
    if let serde_json::Value::Object(map) = object {
        map.insert(key, member);
    }
}

/// `serde_json::from_str` into a `serde_json::Value`: what comes back depends on the text alone.
#[verifier::external_body]
fn from_str(text: &str) -> (value: Result<serde_json::Value, serde_json::Error>)
    ensures
        match value {
            Ok(v) => parsed(text@) == Ok::<JsonView, serde_json::Error>(value_tree(v)),
            Err(e) => parsed(text@) == Err::<JsonView, serde_json::Error>(e),
        },
{
    serde_json::from_str::<serde_json::Value>(text)
}

/// `Display` of `serde_json::Value`: the text depends on the document alone.
#[verifier::external_body]
fn display(value: &serde_json::Value) -> (text: String)
    ensures
        text@ == compact_text(value_tree(*value)),
{
    value.to_string()
}

/// `serde_json::to_string_pretty` of a `serde_json::Value`: the text, or that there is none,
/// depends on the document alone.
#[verifier::external_body]
fn to_string_pretty(value: &serde_json::Value) -> (text: Option<String>)
    ensures
        text.deep_view() == pretty_text(value_tree(*value)),
{
    serde_json::to_string_pretty(value).ok()
}

/// `Display` of `serde_json::Error`: the text depends on the error alone.
#[verifier::external_body]
pub(crate) fn serde_error_message(error: &serde_json::Error) -> (text: String)
    ensures
        text@ == serde_error_text(*error),
{
    error.to_string()
}

/// An object with distinct keys is finite and holds each member under its key.
proof fn lemma_opened_map(members: Seq<(&String, &serde_json::Value)>)
    requires
        distinct_keys(members),
    ensures
        opened_map(members).dom().finite(),
        forall|i: int|
            0 <= i < members.len() ==> opened_map(members).contains_key(
                #[trigger] members[i].0@,
            ) && opened_map(members)[members[i].0@] == value_tree(*members[i].1),
    decreases members.len(),
{
    if members.len() > 0 {
        let before = members.drop_last();
        assert forall|i: int, j: int| 0 <= i < j < before.len() implies #[trigger] before[i].0@
            != #[trigger] before[j].0@ by {
            assert(members[i].0@ != members[j].0@);
        }
        lemma_opened_map(before);
        assert forall|i: int| 0 <= i < members.len() implies opened_map(members).contains_key(
            #[trigger] members[i].0@,
        ) && opened_map(members)[members[i].0@] == value_tree(*members[i].1) by {
            if i < members.len() - 1 {
                assert(before[i] == members[i]);
                assert(members[i].0@ != members[members.len() - 1].0@);
            }
        }
    }
}

/// The plain form of a document that `serde_json` holds.
pub fn json_of_value(value: &serde_json::Value) -> (json: Json)
    ensures
        json@ == value_tree(*value),
    decreases value_tree(*value),
{
    match open_value(value) {
        Opened::Null => Json::Null,
        Opened::Bool(b) => Json::Bool(b),
        Opened::Number(n) => Json::Number(n.clone()),
        Opened::Text(s) => Json::Text(s.clone()),
        Opened::Array(items) => {
            let mut plain: Vec<Json> = Vec::new();
            let mut i: usize = 0;
            while i < items.len()
                invariant
                    i <= items@.len(),
                    value_tree(*value) == JsonView::Array(value_trees(items@)),
                    plain.deep_view() == value_trees(items@).take(i as int),
                decreases items.len() - i,
            {
                let ghost before = plain.deep_view();
                let ghost tree = value_tree(*value);
                assert(decreases_to!(tree => tree->Array_0));
                assert(decreases_to!(tree->Array_0 => tree->Array_0[i as int]));
                let item = json_of_value(&items[i]);
                plain.push(item);
                assert(plain.deep_view() =~= before.push(item@));
                assert(value_trees(items@).take(i + 1) =~= before.push(item@));
                i = i + 1;
            }
            proof {
                assert(value_trees(items@).take(i as int) =~= value_trees(items@));
                lemma_array_tree(plain);
            }
            Json::Array(plain)
        },
        Opened::Object(members) => {
            let mut plain: Vec<(String, Json)> = Vec::new();
            let mut i: usize = 0;
            assert(members@.take(0) =~= Seq::<(&String, &serde_json::Value)>::empty());
            while i < members.len()
                invariant
                    i <= members@.len(),
                    distinct_keys(members@),
                    value_tree(*value) == JsonView::Object(opened_map(members@)),
                    member_map(plain@) == opened_map(members@.take(i as int)),
                decreases members.len() - i,
            {
                let ghost before = plain@;
                let ghost tree = value_tree(*value);
                proof {
                    lemma_opened_map(members@);
                    assert(decreases_to!(tree => tree->Object_0));
                    assert(decreases_to!(tree->Object_0 => tree->Object_0[members@[i as int].0@]));
                }
                let item = json_of_value(members[i].1);
                plain.push((members[i].0.clone(), item));
                assert(plain@.drop_last() =~= before);
                assert(members@.take(i + 1).drop_last() =~= members@.take(i as int));
                i = i + 1;
            }
            assert(members@.take(i as int) =~= members@);
            Json::Object(plain)
        },
    }
}

/// The document as `serde_json` holds it.
pub fn value_of_json(json: &Json) -> (value: serde_json::Value)
    ensures
        value_tree(value) == json@,
    decreases json,
{
    match json {
        Json::Null => build_value(Parts::Null),
        Json::Bool(b) => build_value(Parts::Bool(*b)),
        Json::Number(n) => build_value(Parts::Number(n.clone())),
        Json::Text(s) => build_value(Parts::Text(s.clone())),
        Json::Array(items) => {
            let mut values: Vec<serde_json::Value> = Vec::new();
            let mut i: usize = 0;
            while i < items.len()
                invariant
                    i <= items@.len(),
                    *json == Json::Array(*items),
                    value_trees(values@) == items.deep_view().take(i as int),
                decreases items.len() - i,
            {
                let ghost before = values@;
                assert(decreases_to!(json => json->Array_0));
                assert(decreases_to!(json->Array_0 => items@[i as int]));
                let value = value_of_json(&items[i]);
                values.push(value);
                assert(value_trees(values@) =~= value_trees(before).push(value_tree(value)));
                assert(items.deep_view().take(i + 1) =~= value_trees(before).push(
                    value_tree(value),
                ));
                i = i + 1;
            }
            proof {
                assert(items.deep_view().take(i as int) =~= items.deep_view());
                lemma_array_tree(*items);
            }
            build_value(Parts::Array(values))
        },
        Json::Object(members) => {
            let mut object = build_value(Parts::EmptyObject);
            let mut i: usize = 0;
            assert(members@.take(0) =~= Seq::<(String, Json)>::empty());
            while i < members.len()
                invariant
                    i <= members@.len(),
                    *json == Json::Object(*members),
                    value_tree(object) == JsonView::Object(member_map(members@.take(i as int))),
                decreases members.len() - i,
            {
                assert(decreases_to!(json => json->Object_0));
                assert(decreases_to!(json->Object_0 => members@[i as int]));
                assert(decreases_to!(members@[i as int] => members@[i as int].1));
                let value = value_of_json(&members[i].1);
                put_member(&mut object, members[i].0.clone(), value);
                assert(members@.take(i + 1).drop_last() =~= members@.take(i as int));
                i = i + 1;
            }
            assert(members@.take(i as int) =~= members@);
            object
        },
    }
}

/// What parsing gave, with the document in place of the value that holds it.
pub open spec fn parse_view(result: Result<Json, serde_json::Error>) -> Result<
    JsonView,
    serde_json::Error,
> {
    match result {
        Ok(json) => Ok(json@),
        Err(e) => Err(e),
    }
}

/// Parses a JSON text.
pub fn parse_json(text: &str) -> (json: Result<Json, serde_json::Error>)
    ensures
        parse_view(json) == parsed(text@),
{
    match from_str(text) {
        Ok(value) => Ok(json_of_value(&value)),
        Err(e) => Err(e),
    }
}

/// Writes a document on one line.
pub fn json_to_string(json: &Json) -> (text: String)
    ensures
        text@ == compact_text(json@),
{
    display(&value_of_json(json))
}

/// Writes a document over several lines, indented.
pub fn json_to_string_pretty(json: &Json) -> (text: Option<String>)
    ensures
        text.deep_view() == pretty_text(json@),
{
    to_string_pretty(&value_of_json(json))
}

} // verus!
