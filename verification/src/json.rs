//! JSON as `serde_json` reads, holds and writes it: the model that the
//! contracts speak of, and the calls into the crate.

use vstd::prelude::*;
use crate::store::record::Record;

verus! {

/// `serde_json::Value`: a JSON value, opaque here.
#[verifier::external_type_specification]
#[verifier::external_body]
pub struct ExJsonValue(serde_json::Value);

/// `serde_json::Map`: a JSON object, opaque here; `object_entries` names
/// what it holds.
#[verifier::external_type_specification]
#[verifier::external_body]
#[verifier::reject_recursive_types(K)]
#[verifier::reject_recursive_types(V)]
pub struct ExJsonMap<K, V>(serde_json::Map<K, V>);

/// `serde_json::Error`: why reading or writing failed, opaque here.
#[verifier::external_type_specification]
#[verifier::external_body]
pub struct ExJsonError(serde_json::Error);

/// A JSON value as a mathematical tree.
pub enum Json {
    Null,
    Bool(bool),
    /// A number, as the digits that `serde_json` prints for it.
    Number(Seq<char>),
    Text(Seq<char>),
    List(Seq<Json>),
    Object(Map<Seq<char>, Json>),
}

/// The JSON list of objects with the given entries.
pub open spec fn list_of_objects(objects: Seq<Map<Seq<char>, Json>>) -> Json {
    Json::List(objects.map_values(|entries: Map<Seq<char>, Json>| Json::Object(entries)))
}

/// The JSON value of an object that may be missing: `null` where it is.
pub open spec fn optional_object(object: Option<Map<Seq<char>, Json>>) -> Json {
    match object {
        Some(entries) => Json::Object(entries),
        None => Json::Null,
    }
}

/// The text under `key`, where the entries hold a text there.
pub open spec fn text_under(entries: Map<Seq<char>, Json>, key: Seq<char>) -> Option<Seq<char>> {
    if entries.contains_key(key) {
        match entries[key] {
            Json::Text(text) => Some(text),
            _ => None,
        }
    } else {
        None
    }
}

/// What a JSON object of `serde_json` holds: the value under each key.
pub uninterp spec fn object_entries(object: serde_json::Map<String, serde_json::Value>) -> Map<
    Seq<char>,
    Json,
>;

/// What `serde_json::from_str` makes of a text that it is to read as a map
/// from strings to values: the object's entries, or the text of the error
/// that it reports.
pub uninterp spec fn parsed_object(text: Seq<char>) -> Result<Map<Seq<char>, Json>, Seq<char>>;

/// What `serde_json::from_slice` reads from bytes as a list of maps from
/// strings to values: the entries of each object, or `None` where it
/// reports an error.
pub uninterp spec fn parsed_objects(bytes: Seq<u8>) -> Option<Seq<Map<Seq<char>, Json>>>;

/// The text that `serde_json::to_string` writes for a value, or `None`
/// where it reports an error.
pub uninterp spec fn json_text(value: Json) -> Option<Seq<char>>;

/// The text that `serde_json::to_string_pretty` writes for a value, or
/// `None` where it reports an error.
pub uninterp spec fn json_pretty_text(value: Json) -> Option<Seq<char>>;

/// `Clone` for a JSON object of `serde_json`: the copy holds the same entries.
pub assume_specification[ <serde_json::Map<String, serde_json::Value> as Clone>::clone ](
    object: &serde_json::Map<String, serde_json::Value>,
) -> (copy: serde_json::Map<String, serde_json::Value>)
    ensures
        object_entries(copy) == object_entries(*object),
;

/// `serde_json::Map::new`: an object without entries.
#[verifier::external_body]
pub(crate) fn empty_object() -> (made: Record)
    ensures
        object_entries(made.fields) == (Map::<Seq<char>, Json>::empty()),
{
    Record { fields: serde_json::Map::new() }
}

/// `serde_json::Map::contains_key`: whether the object holds a value under
/// `key`.
#[verifier::external_body]
pub(crate) fn has_key(object: &Record, key: &str) -> (held: bool)
    ensures
        held == object_entries(object.fields).contains_key(key@),
{
    object.fields.contains_key(key)
}

/// `serde_json::Map::get`, then `Value::as_str`: the text under `key`, or
/// `None` where the object holds nothing there or something that is no
/// text.
#[verifier::external_body]
pub(crate) fn text_field(object: &Record, key: &str) -> (text: Option<String>)
    ensures
        match text {
            Some(held) => text_under(object_entries(object.fields), key@) == Some(held@),
            None => text_under(object_entries(object.fields), key@) is None,
        },
{
    object.fields.get(key).and_then(|value| value.as_str()).map(|text| text.to_owned())
}

/// `serde_json::Map::insert` of a `Value::String`: afterwards the object
/// holds the text under `key`, and under every other key what it held.
#[verifier::external_body]
pub(crate) fn set_text(object: &mut Record, key: String, text: String)
    ensures
        object_entries(final(object).fields) == object_entries(old(object).fields).insert(
            key@,
            Json::Text(text@),
        ),
{
    object.fields.insert(key, serde_json::Value::String(text));
}

/// Reads the text of one JSON object with `serde_json::from_str`, as a
/// `HashMap<String, Value>`. The result is a function of the text alone,
/// the one that `parsed_object` names: the entries, or what the `Display` of
/// the crate's error prints.
#[verifier::external_body]
pub(crate) fn parse_object(text: &str) -> (parsed: Result<Record, String>)
    ensures
        match parsed {
            Ok(record) => parsed_object(text@) is Ok && parsed_object(text@)->Ok_0
                == object_entries(record.fields),
            Err(said) => parsed_object(text@) is Err && parsed_object(text@)->Err_0 == said@,
        },
{
    let read = serde_json::from_str::<std::collections::HashMap<String, serde_json::Value>>(text);
    match read {
        Ok(entries) => Ok(Record { fields: entries.into_iter().collect() }),
        Err(err) => Err(err.to_string()),
    }
}

/// Reads the bytes of a JSON list of objects with `serde_json::from_slice`,
/// as a `Vec<HashMap<String, Value>>`. The result is a function of the
/// bytes alone: the objects that `parsed_objects` names, in their order, or
/// the crate's error where it names none.
#[verifier::external_body]
pub(crate) fn parse_objects(bytes: &[u8]) -> (parsed: Result<Vec<Record>, serde_json::Error>)
    ensures
        match parsed {
            Ok(records) => parsed_objects(bytes@) == Some(
                Seq::new(records.len() as nat, |i: int| object_entries(records[i].fields)),
            ),
            Err(_) => parsed_objects(bytes@) is None,
        },
{
    let read = serde_json::from_slice::<
        Vec<std::collections::HashMap<String, serde_json::Value>>,
    >(bytes);
    read.map(
        |list|
            list.into_iter().map(
                |entries| Record { fields: entries.into_iter().collect() },
            ).collect(),
    )
}

/// Writes a list of objects with `serde_json::to_string`. The result is a
/// function of the objects alone: the text that `json_text` names for
/// their list, or the crate's error where it names none.
#[verifier::external_body]
pub(crate) fn objects_text(records: &Vec<Record>) -> (written: Result<String, serde_json::Error>)
    ensures
        match written {
            Ok(text) => json_text(
                list_of_objects(
                    Seq::new(records.len() as nat, |i: int| object_entries(records[i].fields)),
                ),
            ) == Some(text@),
            Err(_) => json_text(
                list_of_objects(
                    Seq::new(records.len() as nat, |i: int| object_entries(records[i].fields)),
                ),
            ) is None,
        },
{
    let objects: Vec<&serde_json::Map<String, serde_json::Value>> = records.iter().map(
        |record| &record.fields,
    ).collect();
    serde_json::to_string(&objects)
}

/// Writes an object that may be missing with `serde_json::to_string`. The
/// result is a function of the object alone: the text that `json_text`
/// names for it, or for `null` where it is missing, or the crate's error
/// where it names none. The missing object is always written, as the text
/// `null`.
#[verifier::external_body]
pub(crate) fn optional_object_text(found: &Option<Record>) -> (written: Result<
    String,
    serde_json::Error,
>)
    ensures
        match written {
            Ok(text) => json_text(
                optional_object(
                    match found {
                        Some(record) => Some(object_entries(record.fields)),
                        None => None,
                    },
                ),
            ) == Some(text@),
            Err(_) => json_text(
                optional_object(
                    match found {
                        Some(record) => Some(object_entries(record.fields)),
                        None => None,
                    },
                ),
            ) is None,
        },
        *found is None ==> written is Ok && written->Ok_0@ == "null"@,
{
    serde_json::to_string(&found.as_ref().map(|record| &record.fields))
}

/// Writes an object with `serde_json::to_string_pretty`. The result is a
/// function of the object alone: the text that `json_pretty_text` names for
/// it, or the crate's error where it names none.
#[verifier::external_body]
pub(crate) fn object_pretty_text(record: &Record) -> (written: Result<String, serde_json::Error>)
    ensures
        match written {
            Ok(text) => json_pretty_text(Json::Object(object_entries(record.fields))) == Some(
                text@,
            ),
            Err(_) => json_pretty_text(Json::Object(object_entries(record.fields))) is None,
        },
{
    serde_json::to_string_pretty(&record.fields)
}

/// What `serde_json` says of an error: the text that its `Display` prints.
/// Nothing is claimed of it.
#[verifier::external_body]
pub(crate) fn error_text(err: &serde_json::Error) -> String {
    err.to_string()
}

} // verus!
