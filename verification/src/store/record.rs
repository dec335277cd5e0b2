//! Records: the JSON objects of a collection, found by the text under `_id`.

use vstd::prelude::*;
use vstd::string::StringExecFns;
use vstd::string::StrSliceExecFns;
use crate::json::Json;
use crate::json::error_text;
use crate::json::has_key;
use crate::json::json_pretty_text;
use crate::json::json_text;
use crate::json::list_of_objects;
use crate::json::object_entries;
use crate::json::object_pretty_text;
use crate::json::objects_text;
use crate::json::optional_object_text;
use crate::json::parse_objects;
use crate::json::parsed_objects;
use crate::json::set_text;
use crate::json::text_field;
use crate::json::text_under;
use crate::molecule::Molecule;
use crate::store::id::FRESH_ID_ATTEMPTS;
use crate::store::id::generate_id;
use crate::store::error::StoreError;
use crate::store::id::is_generated_id;

verus! {

/// One document of a collection: a JSON object.
#[derive(Debug, PartialEq, Eq)]
pub struct Record {
    pub fields: serde_json::Map<String, serde_json::Value>,
}

impl Clone for Record {
    /// A record with the same entries.
    fn clone(&self) -> (copy: Self)
        ensures
            copy@ == self@,
    {
        Record { fields: self.fields.clone() }
    }
}

impl View for Record {
    type V = Map<Seq<char>, Json>;

    /// The value under each key.
    open spec fn view(&self) -> Map<Seq<char>, Json> {
        object_entries(self.fields)
    }
}

impl DeepView for Record {
    type V = Map<Seq<char>, Json>;

    open spec fn deep_view(&self) -> Map<Seq<char>, Json> {
        self@
    }
}

/// The identifier of a record: the text under `_id`, where there is one.
pub open spec fn id_of(entries: Map<Seq<char>, Json>) -> Option<Seq<char>> {
    text_under(entries, "_id"@)
}

/// The first record whose identifier is `record_id`.
pub open spec fn first_with_id(records: Seq<Map<Seq<char>, Json>>, record_id: Seq<char>) -> Option<
    Map<Seq<char>, Json>,
>
    decreases records.len(),
{
    if records.len() == 0 {
        None
    } else if id_of(records[0]) == Some(record_id) {
        Some(records[0])
    } else {
        first_with_id(records.drop_first(), record_id)
    }
}

/// The record that is stored for the given contents: the contents as they
/// are where they hold anything under `_id`, else the contents with the
/// generated identifier as text under `_id`.
pub open spec fn stored_form(contents: Map<Seq<char>, Json>, generated: Seq<char>) -> Map<
    Seq<char>,
    Json,
> {
    if contents.contains_key("_id"@) {
        contents
    } else {
        contents.insert("_id"@, Json::Text(generated))
    }
}

/// The identifier that is reported for a stored record: the text under
/// `_id`, or the empty text where `_id` holds something else.
pub open spec fn reported_id(stored: Map<Seq<char>, Json>) -> Seq<char> {
    match id_of(stored) {
        Some(id) => id,
        None => Seq::empty(),
    }
}

impl Record {
    /// Whether the record holds anything under `key`.
    pub fn contains_key(&self, key: &str) -> (held: bool)
        ensures
            held == self@.contains_key(key@),
    {
        has_key(self, key)
    }

    /// The text under `key`, where the record holds a text there.
    pub fn text(&self, key: &str) -> (text: Option<String>)
        ensures
            match text {
                Some(held) => text_under(self@, key@) == Some(held@),
                None => text_under(self@, key@) is None,
            },
    {
        text_field(self, key)
    }

    /// The record's identifier: the text under `_id`.
    pub fn id(&self) -> (id: Option<String>)
        ensures
            match id {
                Some(held) => id_of(self@) == Some(held@),
                None => id_of(self@) is None,
            },
    {
        text_field(self, "_id")
    }
}

/// Picks the first record whose identifier is `record_id`.
pub fn find_record(records: Vec<Record>, record_id: &str) -> (found: Option<Record>)
    ensures
        match found {
            Some(record) => first_with_id(records.deep_view(), record_id@) == Some(record@),
            None => first_with_id(records.deep_view(), record_id@) is None,
        },
{
    let mut rest = records;
    let ghost all = records.deep_view();
    let mut i: usize = 0;
    assert(all.skip(0) =~= all);
    while i < rest.len()
        invariant
            i <= rest.len(),
            all == records.deep_view(),
            all == rest.deep_view(),
            first_with_id(all, record_id@) == first_with_id(all.skip(i as int), record_id@),
        decreases rest.len() - i,
    {
        let matches = match rest[i].id() {
            Some(id) => crate::text::str_eq(id.as_str(), record_id),
            None => false,
        };
        proof {
            assert(all.skip(i as int)[0] == rest[i as int]@);
            assert(all.skip(i as int).drop_first() =~= all.skip(i + 1));
        }
        if matches {
            let ghost wanted = rest[i as int]@;
            let record = rest.remove(i);
            assert(record@ == wanted);
            return Some(record);
        }
        i += 1;
    }
    None
}

/// Adds a record with the given contents to the end of `records`. The
/// contents get `generated` as their identifier where they bring none.
/// Returns the longer sequence and the identifier to report.
pub fn add_record(records: Vec<Record>, contents: Record, generated: String) -> (added: (
    Vec<Record>,
    String,
))
    ensures
        added.0.deep_view() == records.deep_view().push(stored_form(contents@, generated@)),
        added.1@ == reported_id(stored_form(contents@, generated@)),
{
    let mut longer = records;
    let mut record = contents;
    if !has_key(&record, "_id") {
        set_text(&mut record, String::from_str("_id"), generated);
    }
    let record_id = match text_field(&record, "_id") {
        Some(id) => id,
        None => String::new(),
    };
    longer.push(record);
    assert(longer.deep_view() =~= records.deep_view().push(stored_form(contents@, generated@)));
    (longer, record_id)
}

/// The bytes of a collection's file for the given records: their JSON list
/// in UTF-8, or `None` where `serde_json` cannot write it.
pub open spec fn records_file(records: Seq<Map<Seq<char>, Json>>) -> Option<Seq<u8>> {
    match json_text(list_of_objects(records)) {
        Some(text) => Some(vstd::utf8::encode_utf8(text)),
        None => None,
    }
}

/// Writes the records as the text of their JSON list.
pub fn records_text(records: &Vec<Record>) -> (written: Result<String, StoreError>)
    ensures
        match written {
            Ok(text) => json_text(list_of_objects(records.deep_view())) == Some(text@),
            Err(err) => json_text(list_of_objects(records.deep_view())) is None && err is Encode,
        },
{
    assert(records.deep_view() =~= Seq::new(
        records.len() as nat,
        |i: int| object_entries(records[i].fields),
    ));
    match objects_text(records) {
        Ok(text) => Ok(text),
        Err(err) => Err(StoreError::Encode(error_text(&err))),
    }
}

/// The entries of a record that may be missing.
pub open spec fn optional_entries(found: Option<Record>) -> Option<Map<Seq<char>, Json>> {
    match found {
        Some(record) => Some(record@),
        None => None,
    }
}

/// The JSON text of a record that may be missing: `null` stands for the
/// missing one. `None` where `serde_json` cannot write the record.
pub open spec fn found_record_text(found: Option<Map<Seq<char>, Json>>) -> Option<Seq<char>> {
    match found {
        Some(entries) => json_text(Json::Object(entries)),
        None => Some("null"@),
    }
}

/// Writes a record that may be missing as JSON text.
pub fn found_text(found: &Option<Record>) -> (written: Result<String, StoreError>)
    ensures
        match written {
            Ok(text) => found_record_text(optional_entries(*found)) == Some(text@),
            Err(err) => found_record_text(optional_entries(*found)) is None && err is Encode,
        },
{
    match optional_object_text(found) {
        Ok(text) => Ok(text),
        Err(err) => Err(StoreError::Encode(error_text(&err))),
    }
}

/// Writes a record as indented JSON text.
pub fn pretty_text(record: &Record) -> (written: Result<String, StoreError>)
    ensures
        match written {
            Ok(text) => json_pretty_text(Json::Object(record@)) == Some(text@),
            Err(err) => json_pretty_text(Json::Object(record@)) is None && err is Encode,
        },
{
    match object_pretty_text(record) {
        Ok(text) => Ok(text),
        Err(err) => Err(StoreError::Encode(error_text(&err))),
    }
}

/// Writes the records as the bytes of a collection's file.
pub fn encode_records(records: &Vec<Record>) -> (file: Result<Vec<u8>, StoreError>)
    ensures
        match file {
            Ok(bytes) => records_file(records.deep_view()) == Some(bytes@),
            Err(err) => records_file(records.deep_view()) is None && err is Encode,
        },
{
    match records_text(records) {
        Ok(text) => Ok(text.as_str().as_bytes_vec()),
        Err(err) => Err(err),
    }
}

/// What creating a record leaves: the records of the collection, the bytes
/// of its file and the identifier of the new record.
#[derive(Debug, Clone, PartialEq, Eq)]
pub struct RecordCreated {
    pub records: Vec<Record>,
    pub file: Vec<u8>,
    pub record_id: String,
}

/// Whether `stored` is what is kept for `contents` in a collection that
/// had the records `before`, and `record_id` what is reported. Contents
/// that hold anything under `_id` are kept as they are, whether or not an
/// earlier record has that identifier. Other contents get, as text under
/// `_id`, a generated identifier that no earlier record has. The reported
/// identifier is the text under `_id`, or empty where `_id` holds something
/// else.
pub open spec fn is_stored_form(
    before: Seq<Map<Seq<char>, Json>>,
    contents: Map<Seq<char>, Json>,
    stored: Map<Seq<char>, Json>,
    record_id: Seq<char>,
) -> bool {
    &&& record_id == reported_id(stored)
    &&& if contents.contains_key("_id"@) {
        stored == contents
    } else {
        &&& is_generated_id(record_id)
        &&& !holds_id(before, record_id)
        &&& stored == contents.insert("_id"@, Json::Text(record_id))
    }
}

/// Whether a record with this identifier is in the sequence.
pub open spec fn holds_id(records: Seq<Map<Seq<char>, Json>>, record_id: Seq<char>) -> bool {
    exists|i: int| 0 <= i < records.len() && id_of(#[trigger] records[i]) == Some(record_id)
}

/// The record that is found in a sequence with one more record at its end:
/// the record that was found before, or else the new record if it has the
/// identifier.
pub proof fn lemma_first_with_id_push(
    before: Seq<Map<Seq<char>, Json>>,
    added: Map<Seq<char>, Json>,
    record_id: Seq<char>,
)
    ensures
        first_with_id(before.push(added), record_id) == match first_with_id(before, record_id) {
            Some(record) => Some(record),
            None => if id_of(added) == Some(record_id) {
                Some(added)
            } else {
                None
            },
        },
        first_with_id(before, record_id) is Some <==> holds_id(before, record_id),
    decreases before.len(),
{
    let after = before.push(added);
    if before.len() == 0 {
        assert(after.drop_first() =~= Seq::<Map<Seq<char>, Json>>::empty());
    } else {
        assert(after.drop_first() =~= before.drop_first().push(added));
        lemma_first_with_id_push(before.drop_first(), added, record_id);
        if id_of(before[0]) != Some(record_id) {
            if holds_id(before, record_id) {
                let i = choose|i: int|
                    0 <= i < before.len() && id_of(#[trigger] before[i]) == Some(record_id);
                assert(id_of(before.drop_first()[i - 1]) == Some(record_id));
            }
            if holds_id(before.drop_first(), record_id) {
                let i = choose|i: int|
                    0 <= i < before.drop_first().len() && id_of(
                        #[trigger] before.drop_first()[i],
                    ) == Some(record_id);
                assert(id_of(before[i + 1]) == Some(record_id));
            }
        }
    }
}

/// A record that was created from contents without `_id` is found by the
/// identifier that was generated for it: what is found holds the generated
/// identifier as text under `_id` and, under every other key, what the
/// contents hold. This is stated of the collections that hold no record
/// with that identifier yet.
pub proof fn created_record_is_found(
    before: Seq<Map<Seq<char>, Json>>,
    contents: Map<Seq<char>, Json>,
    generated: Seq<char>,
)
    requires
        !contents.contains_key("_id"@),
        !holds_id(before, generated),
    ensures
        ({
            let kept = stored_form(contents, generated);
            &&& reported_id(kept) == generated
            &&& first_with_id(before.push(kept), generated) == Some(kept)
            &&& kept["_id"@] == Json::Text(generated)
            &&& forall|key: Seq<char>|
                contents.contains_key(key) ==> kept.contains_key(key) && kept[key] == contents[key]
        }),
{
    lemma_first_with_id_push(before, stored_form(contents, generated), generated);
}

/// What is kept for contents without `_id` is found by the identifier that
/// is reported for it, and holds that identifier as text under `_id` and,
/// under every other key, what the contents hold.
pub proof fn kept_record_is_found(
    before: Seq<Map<Seq<char>, Json>>,
    contents: Map<Seq<char>, Json>,
    kept: Map<Seq<char>, Json>,
    record_id: Seq<char>,
)
    requires
        is_stored_form(before, contents, kept, record_id),
        !contents.contains_key("_id"@),
    ensures
        is_generated_id(record_id),
        !holds_id(before, record_id),
        first_with_id(before.push(kept), record_id) == Some(kept),
        kept["_id"@] == Json::Text(record_id),
        forall|key: Seq<char>|
            contents.contains_key(key) ==> kept.contains_key(key) && kept[key] == contents[key],
{
    created_record_is_found(before, contents, record_id);
}

/// Contents that bring a text under `_id` are kept as they are and
/// reported under that text, whatever was generated; the record is then
/// found by it unless an earlier record has the same identifier.
pub proof fn given_id_is_kept(
    before: Seq<Map<Seq<char>, Json>>,
    contents: Map<Seq<char>, Json>,
    generated: Seq<char>,
    given: Seq<char>,
)
    requires
        id_of(contents) == Some(given),
    ensures
        stored_form(contents, generated) == contents,
        reported_id(stored_form(contents, generated)) == given,
        !holds_id(before, given) ==> first_with_id(before.push(contents), given) == Some(
            contents,
        ),
{
    lemma_first_with_id_push(before, contents, given);
}

/// Whether `serde_json` cannot write the collection with one more record,
/// kept for `contents` under some identifier.
pub open spec fn cannot_keep(before: Seq<Map<Seq<char>, Json>>, contents: Map<Seq<char>, Json>)
    -> bool {
    exists|kept: Map<Seq<char>, Json>, id: Seq<char>| #[trigger]
        is_stored_form(before, contents, kept, id) && records_file(before.push(kept)) is None
}

/// Whether the collection holds a record under an identifier of the
/// generated shape.
pub open spec fn holds_generated_id(records: Seq<Map<Seq<char>, Json>>) -> bool {
    exists|id: Seq<char>| #[trigger] is_generated_id(id) && holds_id(records, id)
}

/// Whether a record with this identifier is in the sequence.
pub fn has_record(records: &Vec<Record>, record_id: &str) -> (held: bool)
    ensures
        held == holds_id(records.deep_view(), record_id@),
{
    let ghost all = records.deep_view();
    let mut i: usize = 0;
    while i < records.len()
        invariant
            i <= records.len(),
            all == records.deep_view(),
            forall|k: int| 0 <= k < i ==> id_of(#[trigger] all[k]) != Some(record_id@),
        decreases records.len() - i,
    {
        let matches = match records[i].id() {
            Some(id) => crate::text::str_eq(id.as_str(), record_id),
            None => false,
        };
        assert(all[i as int] == records[i as int]@);
        if matches {
            return true;
        }
        i += 1;
    }
    false
}

/// The identifier that was drawn, if no record has it.
pub fn unused_record_id(records: &Vec<Record>, drawn: String) -> (unused: Option<String>)
    ensures
        unused == if holds_id(records.deep_view(), drawn@) {
            None
        } else {
            Some(drawn)
        },
{
    if has_record(records, drawn.as_str()) {
        None
    } else {
        Some(drawn)
    }
}

/// Generates an identifier that no record of the collection has. It draws
/// at most `FRESH_ID_ATTEMPTS` identifiers and gives up where each of them
/// is taken.
fn fresh_record_id(records: &Vec<Record>) -> (fresh: Option<String>)
    ensures
        match fresh {
            Some(id) => is_generated_id(id@) && !holds_id(records.deep_view(), id@),
            None => holds_generated_id(records.deep_view()),
        },
{
    let mut attempt: usize = 0;
    loop
        invariant
            attempt < FRESH_ID_ATTEMPTS,
        decreases FRESH_ID_ATTEMPTS - attempt,
    {
        let drawn = generate_id();
        let ghost taken = drawn@;
        match unused_record_id(records, drawn) {
            Some(id) => {
                return Some(id);
            },
            None => {
                attempt += 1;
                if attempt >= FRESH_ID_ATTEMPTS {
                    assert(is_generated_id(taken) && holds_id(records.deep_view(), taken));
                    return None;
                }
            },
        }
    }
}

/// The record store of a server. `stored` is what the file of the
/// collection holds; writing what comes back is left to the caller.
pub trait MoleculeCoreRecordsApi {
    /// Adds a record with the given contents to the collection.
    fn create_record(&self, stored: &[u8], contents: Record) -> Result<RecordCreated, StoreError>;

    /// The record of the collection with the given identifier.
    fn get_record_by_id(&self, stored: &[u8], record_id: String) -> Result<
        Option<Record>,
        StoreError,
    >;

    /// The records of the collection.
    fn get_records(&self, stored: &[u8]) -> Result<Vec<Record>, StoreError>;
}

impl MoleculeCoreRecordsApi for Molecule {
    /// Reads the records of a collection from the bytes of its file.
    fn get_records(&self, stored: &[u8]) -> (read: Result<Vec<Record>, StoreError>)
        ensures
            match read {
                Ok(records) => parsed_objects(stored@) == Some(records.deep_view()),
                Err(err) => parsed_objects(stored@) is None && err is Decode,
            },
    {
        match parse_objects(stored) {
            Ok(records) => {
                assert(records.deep_view() =~= Seq::new(
                    records.len() as nat,
                    |i: int| object_entries(records[i].fields),
                ));
                Ok(records)
            },
            Err(err) => Err(StoreError::Decode(error_text(&err))),
        }
    }

    /// Reads the records of a collection from the bytes of its file and picks
    /// the first whose identifier is `record_id`.
    fn get_record_by_id(&self, stored: &[u8], record_id: String) -> (found: Result<
        Option<Record>,
        StoreError,
    >)
        ensures
            match found {
                Ok(Some(record)) => parsed_objects(stored@) is Some && first_with_id(
                    parsed_objects(stored@)->0,
                    record_id@,
                ) == Some(record@),
                Ok(None) => parsed_objects(stored@) is Some && first_with_id(
                    parsed_objects(stored@)->0,
                    record_id@,
                ) is None,
                Err(err) => parsed_objects(stored@) is None && err is Decode,
            },
    {
        match self.get_records(stored) {
            Ok(records) => Ok(find_record(records, record_id.as_str())),
            Err(err) => Err(err),
        }
    }

    /// Adds a record with the given contents to the collection whose file holds
    /// the bytes `stored`. Contents without `_id` get a generated identifier
    /// that no record of the collection has; where every identifier that is
    /// drawn is taken, nothing is added.
    fn create_record(&self, stored: &[u8], contents: Record) -> (created: Result<
        RecordCreated,
        StoreError,
    >)
        ensures
            match created {
                Ok(made) => {
                    &&& parsed_objects(stored@) is Some
                    &&& made.records.deep_view().len() > 0
                    &&& made.records.deep_view() == parsed_objects(stored@)->0.push(
                        made.records.deep_view().last(),
                    )
                    &&& is_stored_form(
                        parsed_objects(stored@)->0,
                        contents@,
                        made.records.deep_view().last(),
                        made.record_id@,
                    )
                    &&& records_file(made.records.deep_view()) == Some(made.file@)
                },
                Err(err) => match err {
                    StoreError::Decode(_) => parsed_objects(stored@) is None,
                    StoreError::IdentifierTaken => {
                        &&& parsed_objects(stored@) is Some
                        &&& !contents@.contains_key("_id"@)
                        &&& holds_generated_id(parsed_objects(stored@)->0)
                    },
                    StoreError::Encode(_) => parsed_objects(stored@) is Some && cannot_keep(
                        parsed_objects(stored@)->0,
                        contents@,
                    ),
                },
            },
    {
        let before = match self.get_records(stored) {
            Ok(records) => records,
            Err(err) => {
                return Err(err);
            },
        };
        let generated = if has_key(&contents, "_id") {
            String::new()
        } else {
            match fresh_record_id(&before) {
                Some(id) => id,
                None => {
                    return Err(StoreError::IdentifierTaken);
                },
            }
        };
        let (records, record_id) = add_record(before, contents, generated);
        let ghost kept = records.deep_view().last();
        assert(is_stored_form(parsed_objects(stored@)->0, contents@, kept, record_id@));
        assert(records.deep_view() == parsed_objects(stored@)->0.push(kept));
        match encode_records(&records) {
            Ok(file) => Ok(RecordCreated { records, file, record_id }),
            Err(err) => Err(err),
        }
    }
}

} // verus!
