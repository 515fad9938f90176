//! JSON documents as `serde_json` holds them, and what they say.
//!
//! `serde_json::Value` is opaque here. Its contents are named by `json_view`,
//! and every operation on it states what it reads or writes of that name.

use vstd::prelude::*;

use crate::text::{trim_marks, trim_start};

verus! {

/// What a JSON value says. A number that is held as a floating-point number is
/// told apart from the other kinds, but its digits are left out.
pub enum JsonView {
    Null,
    Bool(bool),
    Integer(int),
    Real,
    Text(Seq<char>),
    Array(Seq<JsonView>),
    Object(Map<Seq<char>, JsonView>),
}

/// The member of an object under `key`. A missing member, and a member of
/// anything but an object, is null.
pub open spec fn member(value: JsonView, key: Seq<char>) -> JsonView {
    match value {
        JsonView::Object(fields) => if fields.contains_key(key) {
            fields[key]
        } else {
            JsonView::Null
        },
        _ => JsonView::Null,
    }
}

/// The text that a value is, if it is one.
pub open spec fn text_of(value: JsonView) -> Option<Seq<char>> {
    match value {
        JsonView::Text(text) => Some(text),
        _ => None,
    }
}

/// The items of an array; nothing but an array has any.
pub open spec fn items_of(value: JsonView) -> Seq<JsonView> {
    match value {
        JsonView::Array(items) => items,
        _ => Seq::empty(),
    }
}

/// The document that `text` spells after its byte order marks; null where it
/// spells none.
pub open spec fn document(text: Seq<char>) -> JsonView {
    match json_parse(trim_start(text, '\u{feff}')) {
        Some(value) => value,
        None => JsonView::Null,
    }
}

/// What an optional value says: an absent one is null.
pub open spec fn opt_json(value: Option<&serde_json::Value>) -> JsonView {
    match value {
        Some(value) => json_view(*value),
        None => JsonView::Null,
    }
}

/// What each of several values says.
pub open spec fn json_views(values: Seq<serde_json::Value>) -> Seq<JsonView> {
    values.map_values(|value: serde_json::Value| json_view(value))
}

/// `serde_json::Value`, with its contents named by `json_view`.
#[verifier::external_type_specification]
#[verifier::external_body]
pub struct ExValue(serde_json::Value);

/// What a `serde_json::Value` holds.
pub uninterp spec fn json_view(value: serde_json::Value) -> JsonView;

/// What `serde_json::from_str` reads out of a text, if the text is JSON.
pub uninterp spec fn json_parse(text: Seq<char>) -> Option<JsonView>;

/// `serde_json::from_str` into a `serde_json::Value`: which texts it takes, and
/// what it reads out of them, depends on the text alone.
#[verifier::external_body]
fn parse(text: &str) -> (parsed: Option<serde_json::Value>)
    ensures
        match parsed {
            Some(value) => json_parse(text@) == Some(json_view(value)),
            None => json_parse(text@) is None,
        },
{
    serde_json::from_str::<serde_json::Value>(text).ok()
}

/// `serde_json::Value::get` with a text as the key: the member of an object
/// under that key. There is none where the key is missing or the value is not
/// an object.
#[verifier::external_body]
fn get<'a>(value: &'a serde_json::Value, key: &str) -> (found: Option<&'a serde_json::Value>)
    ensures
        match json_view(*value) {
            JsonView::Object(fields) => if fields.contains_key(key@) {
                found is Some && json_view(*found->0) == fields[key@]
            } else {
                found is None
            },
            _ => found is None,
        },
{
    value.get(key)
}

/// `serde_json::Value::as_str` hands out the text of a text, and of nothing
/// else.
pub assume_specification[ serde_json::Value::as_str ](value: &serde_json::Value) -> (text: Option<
    &str,
>)
    ensures
        match json_view(*value) {
            JsonView::Text(held) => text is Some && text->0@ == held,
            _ => text is None,
        },
;

/// `serde_json::Value::as_bool` hands out the truth value of a truth value, and
/// of nothing else.
pub assume_specification[ serde_json::Value::as_bool ](value: &serde_json::Value) -> (flag: Option<
    bool,
>)
    ensures
        match json_view(*value) {
            JsonView::Bool(held) => flag == Some(held),
            _ => flag is None,
        },
;

/// `serde_json::Value::as_array` hands out the items of an array, in order, and
/// of nothing else.
pub assume_specification[ serde_json::Value::as_array ](value: &serde_json::Value) -> (items: Option<
    &Vec<serde_json::Value>,
>)
    ensures
        match json_view(*value) {
            JsonView::Array(held) => items is Some && json_views(items->0@) == held,
            _ => items is None,
        },
;

/// `serde_json::Value::is_object` tells objects from everything else.
pub assume_specification[ serde_json::Value::is_object ](value: &serde_json::Value) -> (object: bool)
    ensures
        object == json_view(*value) is Object,
;

/// `serde_json::Map::new`, as a value: an object without members.
#[verifier::external_body]
pub(crate) fn empty_object() -> (object: serde_json::Value)
    ensures
        json_view(object) == JsonView::Object(Map::empty()),
{
    serde_json::Value::Object(serde_json::Map::new())
}

/// Assignment to a member through `serde_json::Value`'s index operator, which
/// adds the member or replaces it. The operator panics on anything but an
/// object or null.
#[verifier::external_body]
pub(crate) fn put(object: &mut serde_json::Value, key: &str, value: serde_json::Value)
    requires
        json_view(*old(object)) is Object,
    ensures
        json_view(*final(object)) == JsonView::Object(
            json_view(*old(object))->Object_0.insert(key@, json_view(value)),
        ),
{
    object[key] = value;
}

/// `serde_json::Value::from` on a text: the value is that text.
#[verifier::external_body]
pub(crate) fn from_text(text: &str) -> (value: serde_json::Value)
    ensures
        json_view(value) == JsonView::Text(text@),
{
    serde_json::Value::from(text)
}

/// `serde_json::Value::from` on a truth value: the value is that truth value.
#[verifier::external_body]
pub(crate) fn from_flag(flag: bool) -> (value: serde_json::Value)
    ensures
        json_view(value) == JsonView::Bool(flag),
{
    serde_json::Value::from(flag)
}

/// `serde_json::Value::from` on an integer: the value is that integer.
#[verifier::external_body]
pub(crate) fn from_integer(n: u64) -> (value: serde_json::Value)
    ensures
        json_view(value) == JsonView::Integer(n as int),
{
    serde_json::Value::from(n)
}

/// `serde_json::Value::from` on a vector of values: an array of them, in order.
#[verifier::external_body]
pub(crate) fn from_items(items: Vec<serde_json::Value>) -> (value: serde_json::Value)
    ensures
        json_view(value) == JsonView::Array(json_views(items@)),
{
    serde_json::Value::from(items)
}

/// Reads the document that `text` spells.
pub fn read_document(text: &str) -> (read: Option<serde_json::Value>)
    ensures
        document(text@) == match read {
            Some(value) => json_view(value),
            None => JsonView::Null,
        },
{
    parse(trim_marks(text, '\u{feff}'))
}

/// The member of an optional value under `key`.
pub fn read_member<'a>(value: Option<&'a serde_json::Value>, key: &str) -> (found: Option<
    &'a serde_json::Value,
>)
    ensures
        opt_json(found) == member(opt_json(value), key@),
{
    match value {
        Some(value) => get(value, key),
        None => None,
    }
}

/// The text that an optional value is.
pub fn read_text(value: Option<&serde_json::Value>) -> (text: Option<String>)
    ensures
        crate::text::opt_text(text) == text_of(opt_json(value)),
{
    match value {
        Some(value) => match value.as_str() {
            Some(text) => Some(text.to_owned()),
            None => None,
        },
        None => None,
    }
}

/// Whether an optional value is the truth value `true`.
pub fn read_true(value: Option<&serde_json::Value>) -> (flag: bool)
    ensures
        flag == (opt_json(value) == JsonView::Bool(true)),
{
    match value {
        Some(value) => match value.as_bool() {
            Some(flag) => flag,
            None => false,
        },
        None => false,
    }
}

/// A member is found under its own key: one that is there is what the object holds
/// there, and where there is none, or no object at all, there is null.
pub proof fn lemma_members_are_found_by_their_key(
    fields: Map<Seq<char>, JsonView>,
    key: Seq<char>,
    value: JsonView,
)
    ensures
        member(JsonView::Object(fields.insert(key, value)), key) == value,
        !fields.contains_key(key) ==> member(JsonView::Object(fields), key) is Null,
        !(value is Object) ==> member(value, key) is Null,
{
}

/// Only a text is read as a text, and it is read as it stands; only an array has
/// items.
pub proof fn lemma_values_are_read_as_they_are(value: JsonView, text: Seq<char>)
    ensures
        text_of(value) == Some(text) <==> value == JsonView::Text(text),
        text_of(value) is None <==> !(value is Text),
        value is Array ==> JsonView::Array(items_of(value)) == value,
        !(value is Array) ==> items_of(value).len() == 0,
{
}

/// Byte order marks in front of a document make no difference, and a text that
/// starts with none is read as it is.
pub proof fn lemma_byte_order_marks_are_skipped(text: Seq<char>)
    ensures
        document(seq!['\u{feff}'] + text) == document(text),
        (text.len() == 0 || text[0] != '\u{feff}') ==> match json_parse(text) {
            Some(value) => document(text) == value,
            None => document(text) is Null,
        },
{
    let marked = seq!['\u{feff}'] + text;
    assert(marked.drop_first() =~= text);
}

} // verus!
