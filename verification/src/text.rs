//! Documents as JSON text. Reading and writing the text is serde_json's
//! work; this module states what the library relies on and carries a
//! document across in both directions.

use vstd::prelude::*;
use vstd::pervasive::unreached;
use serde_json::Value;
use crate::json::{keys_distinct, Json, JsonDoc};

verus! {

/// `serde_json::Value`, taken as it is: this library looks into one only
/// through the functions below.
#[verifier::external_type_specification]
#[verifier::external_body]
pub struct ExValue(serde_json::Value);

/// The document that a `serde_json::Value` holds: a string, a boolean, an
/// array and an object stand for themselves, the entries of an object in
/// the order in which the value hands them out; null and numbers are
/// `Other`.
pub uninterp spec fn doc_of(value: Value) -> JsonDoc;

/// What `serde_json::from_str` makes of a text when asked for a `Value`:
/// the document of the value it builds, or the message of its error where
/// it rejects the text.
pub uninterp spec fn parsed(text: Seq<char>) -> Result<JsonDoc, Seq<char>>;

/// What `serde_json::to_string_pretty` makes of a value that holds the
/// given document: the text it writes, or the message of its error.
pub uninterp spec fn pretty(doc: JsonDoc) -> Result<Seq<char>, Seq<char>>;

/// The documents of a run of values.
pub open spec fn docs_of(values: Seq<Value>) -> Seq<JsonDoc> {
    Seq::new(values.len(), |i: int| doc_of(values[i]))
}

/// The entries of an object, as borrowed from a value.
pub open spec fn entries_of(entries: Seq<(&String, &Value)>) -> Seq<(Seq<char>, JsonDoc)> {
    Seq::new(entries.len(), |i: int| (entries[i].0@, doc_of(*entries[i].1)))
}

/// The entries of an object, as handed to a value.
pub open spec fn fields_of(fields: Seq<(String, Value)>) -> Seq<(Seq<char>, JsonDoc)> {
    Seq::new(fields.len(), |i: int| (fields[i].0@, doc_of(fields[i].1)))
}

/// `serde_json::Value::as_bool`: the boolean, if the value is one.
pub assume_specification[ serde_json::Value::as_bool ](value: &Value) -> (r: Option<bool>)
    ensures
        match r {
            Some(b) => doc_of(*value) == JsonDoc::Bool(b),
            None => !(doc_of(*value) is Bool),
        },
;

/// `serde_json::Value::as_str`: the string, if the value is one.
pub assume_specification<'a>[ serde_json::Value::as_str ](value: &'a Value) -> (r: Option<
    &'a str,
>)
    ensures
        match r {
            Some(s) => doc_of(*value) == JsonDoc::Text(s@),
            None => !(doc_of(*value) is Text),
        },
;

/// `serde_json::Value::as_array`: the elements, if the value is an array.
pub assume_specification<'a>[ serde_json::Value::as_array ](value: &'a Value) -> (r: Option<
    &'a Vec<Value>,
>)
    ensures
        match r {
            Some(items) => doc_of(*value) == JsonDoc::List(docs_of(items@)),
            None => !(doc_of(*value) is List),
        },
;

/// `serde_json::Value::as_object` and `Map::iter`: the entries in the
/// map's order, if the value is an object.
#[verifier::external_body]
fn object_entries(value: &Value) -> (r: Option<Vec<(&String, &Value)>>)
    ensures
        match r {
            Some(entries) => doc_of(*value) == JsonDoc::Record(entries_of(entries@)),
            None => !(doc_of(*value) is Record),
        },
{
    match value.as_object() {
        Some(map) => Some(map.iter().collect()),
        None => None,
    }
}

/// `serde_json::from_str`, asked for a `Value`: the outcome is the one
/// that `parsed` names, the value standing for its document and the
/// error for the message that its `Display` gives.
#[verifier::external_body]
fn parse_value(text: &str) -> (outcome: Result<Value, String>)
    ensures
        match outcome {
            Ok(value) => parsed(text@) == Ok::<JsonDoc, Seq<char>>(doc_of(value)),
            Err(complaint) => parsed(text@) == Err::<JsonDoc, Seq<char>>(complaint@),
        },
{
    match serde_json::from_str::<Value>(text) {
        Ok(value) => Ok(value),
        Err(error) => Err(error.to_string()),
    }
}

/// `serde_json::to_string_pretty` on a `Value` that holds neither null
/// nor number (that no object in it names a key twice is so of every
/// `Value`): the outcome is the one that `pretty` names for the value's
/// document, the error standing for the message that its `Display` gives.
#[verifier::external_body]
fn pretty_value(value: &Value) -> (outcome: Result<String, String>)
    requires
        doc_of(*value).writable(),
    ensures
        match outcome {
            Ok(text) => pretty(doc_of(*value)) == Ok::<Seq<char>, Seq<char>>(text@),
            Err(complaint) => pretty(doc_of(*value)) == Err::<Seq<char>, Seq<char>>(complaint@),
        },
{
    match serde_json::to_string_pretty(value) {
        Ok(text) => Ok(text),
        Err(error) => Err(error.to_string()),
    }
}

/// `Value::String`: the value that holds a string.
#[verifier::external_body]
fn text_value(text: String) -> (value: Value)
    ensures
        doc_of(value) == JsonDoc::Text(text@),
{
    Value::String(text)
}

/// `Value::Bool`: the value that holds a boolean.
#[verifier::external_body]
fn bool_value(flag: bool) -> (value: Value)
    ensures
        doc_of(value) == JsonDoc::Bool(flag),
{
    Value::Bool(flag)
}

/// `Value::Array`: the array of the given values, in their order.
#[verifier::external_body]
fn list_value(items: Vec<Value>) -> (value: Value)
    ensures
        doc_of(value) == JsonDoc::List(docs_of(items@)),
{
    Value::Array(items)
}

/// `Value::Object` over a `Map` collected from the entries: with the
/// `preserve_order` feature the map keeps entries with distinct keys in
/// the order in which they were inserted.
#[verifier::external_body]
fn record_value(fields: Vec<(String, Value)>) -> (value: Value)
    requires
        keys_distinct(fields_of(fields@)),
    ensures
        doc_of(value) == JsonDoc::Record(fields_of(fields@)),
{
    Value::Object(fields.into_iter().collect())
}

/// The document of a value, held in the library's own type.
fn from_value(value: &Value) -> (json: Json)
    ensures
        json@ == doc_of(*value),
    decreases doc_of(*value),
{
    if let Some(b) = value.as_bool() {
        return Json::Bool(b);
    }
    if let Some(s) = value.as_str() {
        return Json::Text(s.to_owned());
    }
    if let Some(items) = value.as_array() {
        let mut list: Vec<Json> = Vec::new();
        let mut i: usize = 0;
        while i < items.len()
            invariant
                i <= items.len(),
                list.len() == i,
                doc_of(*value) == JsonDoc::List(docs_of(items@)),
                forall|k: int| 0 <= k < i ==> (#[trigger] list[k])@ == doc_of(items[k]),
            decreases items.len() - i,
        {
            proof {
                let whole = doc_of(*value);
                assert(decreases_to!(whole => whole->List_0[i as int]));
            }
            let item = from_value(&items[i]);
            list.push(item);
            i += 1;
        }
        let json = Json::List(list);
        assert(json@->List_0 =~= docs_of(items@));
        return json;
    }
    if let Some(entries) = object_entries(value) {
        let mut fields: Vec<(String, Json)> = Vec::new();
        let mut i: usize = 0;
        while i < entries.len()
            invariant
                i <= entries.len(),
                fields.len() == i,
                doc_of(*value) == JsonDoc::Record(entries_of(entries@)),
                forall|k: int| 0 <= k < i ==> (#[trigger] fields[k]).0@ == entries[k].0@
                    && fields[k].1@ == doc_of(*entries[k].1),
            decreases entries.len() - i,
        {
            proof {
                let whole = doc_of(*value);
                assert(decreases_to!(whole => whole->Record_0[i as int].1));
            }
            let key = entries[i].0.clone();
            let item = from_value(entries[i].1);
            fields.push((key, item));
            i += 1;
        }
        let json = Json::Record(fields);
        assert(json@->Record_0 =~= entries_of(entries@));
        return json;
    }
    Json::Other
}

/// A value that holds the given document.
fn to_value(json: &Json) -> (value: Value)
    requires
        json@.writable(),
    ensures
        doc_of(value) == json@,
    decreases json,
{
    match json {
        Json::Text(text) => text_value(text.clone()),
        Json::Bool(flag) => bool_value(*flag),
        Json::List(items) => {
            let ghost docs = json@->List_0;
            assert forall|k: int| 0 <= k < items@.len() implies #[trigger] docs[k]
                == items@[k]@ by {}
            let mut values: Vec<Value> = Vec::new();
            let mut i: usize = 0;
            while i < items.len()
                invariant
                    i <= items.len(),
                    values.len() == i,
                    docs.len() == items@.len(),
                    forall|k: int| 0 <= k < items@.len() ==> #[trigger] docs[k] == items@[k]@,
                    forall|k: int| 0 <= k < docs.len() ==> (#[trigger] docs[k]).writable(),
                    forall|k: int| 0 <= k < i ==> doc_of(#[trigger] values[k]) == items[k]@,
                    decreases_to!(json => *items),
                decreases items.len() - i,
            {
                assert(docs[i as int].writable());
                let value = to_value(&items[i]);
                values.push(value);
                i += 1;
            }
            assert(docs_of(values@) =~= docs);
            list_value(values)
        },
        Json::Record(fields) => {
            let ghost docs = json@->Record_0;
            assert forall|k: int| 0 <= k < fields@.len() implies #[trigger] docs[k] == (
                fields@[k].0@,
                fields@[k].1@,
            ) by {}
            let mut entries: Vec<(String, Value)> = Vec::new();
            let mut i: usize = 0;
            while i < fields.len()
                invariant
                    i <= fields.len(),
                    entries.len() == i,
                    docs.len() == fields@.len(),
                    forall|k: int| 0 <= k < fields@.len() ==> #[trigger] docs[k] == (
                        fields@[k].0@,
                        fields@[k].1@,
                    ),
                    forall|k: int| 0 <= k < docs.len() ==> (#[trigger] docs[k]).1.writable(),
                    forall|k: int| 0 <= k < i ==> (#[trigger] entries[k]).0@ == fields[k].0@
                        && doc_of(entries[k].1) == fields[k].1@,
                    decreases_to!(json => *fields),
                decreases fields.len() - i,
            {
                assert(docs[i as int].1.writable());
                let key = fields[i].0.clone();
                let value = to_value(&fields[i].1);
                entries.push((key, value));
                i += 1;
            }
            assert(fields_of(entries@) =~= docs);
            record_value(entries)
        },
        Json::Other => unreached(),
    }
}

/// The outcome of reading a text, as a mathematical value.
pub open spec fn read_view(outcome: Result<Json, String>) -> Result<JsonDoc, Seq<char>> {
    match outcome {
        Ok(json) => Ok(json@),
        Err(complaint) => Err(complaint@),
    }
}

/// The outcome of writing a text, as a mathematical value.
pub open spec fn written_view(outcome: Result<String, String>) -> Result<Seq<char>, Seq<char>> {
    match outcome {
        Ok(text) => Ok(text@),
        Err(complaint) => Err(complaint@),
    }
}

/// Reads a JSON text: the document, or the parser's complaint.
pub fn parse(text: &str) -> (outcome: Result<Json, String>)
    ensures
        read_view(outcome) == parsed(text@),
{
    match parse_value(text) {
        Ok(value) => Ok(from_value(&value)),
        Err(complaint) => Err(complaint),
    }
}

/// Writes a document as indented JSON text.
pub(crate) fn render(json: &Json) -> (outcome: Result<String, String>)
    requires
        json@.writable(),
    ensures
        written_view(outcome) == pretty(json@),
{
    let value = to_value(json);
    pretty_value(&value)
}

} // verus!
