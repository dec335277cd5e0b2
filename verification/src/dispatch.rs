//! The dispatcher: what a request needs from the store, and what comes of
//! it once the store's bytes are there. Reading and writing the files is
//! left to the caller.

use vstd::prelude::*;
use vstd::string::StringExecFns;
use crate::constants::MOLECULE_DEFAULT_DATA_COLLECTION_META_PATH;
use crate::json::parsed_objects;
use crate::proto::DatabaseInputType;
use crate::proto::InputSource;
use crate::proto::ParseError;
use crate::proto::parse_spec;
use crate::proto::parse_str_to_db_input_type;
use crate::store::collection::Collection;
use crate::store::collection::CollectionData;
use crate::store::collection::cannot_register;
use crate::store::collection::collection_path;
use crate::molecule::Molecule;
use crate::store::collection::MoleculeCoreCollectionApi;
use crate::store::record::MoleculeCoreRecordsApi;
use crate::store::collection::added_collection_is_listed;
use crate::store::collection::first_name;
use crate::store::collection::ids_distinct;
use crate::store::collection::records_paths_differ;
use crate::store::collection::has_id;
use crate::store::collection::no_records_file;
use crate::store::collection::records_path;
use crate::store::collection::registry_collections;
use crate::store::collection::registry_text;
use crate::store::id::is_generated_id;
use crate::store::record::Record;
use crate::store::error::StoreError;
use crate::store::record::cannot_keep;
use crate::store::record::first_with_id;
use crate::store::record::is_stored_form;
use crate::store::record::records_file;
use crate::text::trim;
use crate::text::trimmed;

verus! {

/// A file that the caller is to write, whole.
#[derive(Debug, Clone, PartialEq, Eq)]
pub struct StoreWrite {
    pub path: String,
    pub contents: Vec<u8>,
}

/// What came of a command line, before a front end renders it.
#[derive(Debug, Clone, PartialEq, Eq)]
pub enum Outcome {
    /// The line stands for no request.
    Rejected(ParseError),
    /// The line was empty.
    Nothing,
    /// The line asks to stop the server.
    Stop,
    /// The request is one that the store has no operation for.
    Unavailable,
    Collections(Vec<Collection>),
    CollectionName(Option<String>),
    Records(Vec<Record>),
    FoundRecord(Option<Record>),
    CreatedCollection(String),
    CreatedRecord(String),
}

/// The outcome of a request with the files that it leaves to write, in the
/// order in which they are to be written.
#[derive(Debug, Clone, PartialEq, Eq)]
pub struct Executed {
    pub outcome: Outcome,
    pub writes: Vec<StoreWrite>,
}

/// What is to be done with the bytes of the file that a request reads.
#[derive(Debug, Clone, PartialEq, Eq)]
pub enum Query {
    ListCollections,
    CollectionName(String),
    CreateCollection(String),
    ListRecords,
    FindRecord(String),
    /// The path of the collection's file and the contents of the new
    /// record.
    CreateRecord(String, Record),
}

/// How far a command line has come: it is done, or the file at a path has
/// to be read and its bytes handed to `Molecule::answer`.
#[derive(Debug, Clone, PartialEq, Eq)]
pub enum Step {
    Done(Outcome),
    Read(String, Query),
}

/// Whether `step` is the first step of `request`: what stops, what is
/// empty and what deletes is done at once; what concerns the registry reads
/// the registry file; what concerns the records of a collection reads that
/// collection's file.
pub open spec fn begins(request: DatabaseInputType, step: Step) -> bool {
    match request {
        DatabaseInputType::Stop => step == Step::Done(Outcome::Stop),
        DatabaseInputType::Noop => step == Step::Done(Outcome::Nothing),
        DatabaseInputType::DeleteCollection(_) => step == Step::Done(Outcome::Unavailable),
        DatabaseInputType::DeleteRecord(_, _) => step == Step::Done(Outcome::Unavailable),
        DatabaseInputType::CollectionsList => {
            &&& step matches Step::Read(path, Query::ListCollections)
            &&& path@ == MOLECULE_DEFAULT_DATA_COLLECTION_META_PATH@
        },
        DatabaseInputType::Collection(id) => {
            &&& step matches Step::Read(path, Query::CollectionName(wanted))
            &&& path@ == MOLECULE_DEFAULT_DATA_COLLECTION_META_PATH@
            &&& wanted@ == id@
        },
        DatabaseInputType::CreateCollection(name) => {
            &&& step matches Step::Read(path, Query::CreateCollection(given))
            &&& path@ == MOLECULE_DEFAULT_DATA_COLLECTION_META_PATH@
            &&& given@ == name@
        },
        DatabaseInputType::CollectionRecords(id) => {
            &&& step matches Step::Read(path, Query::ListRecords)
            &&& path@ == records_path(id@)
        },
        DatabaseInputType::IdRecord(id, record_id) => {
            &&& step matches Step::Read(path, Query::FindRecord(wanted))
            &&& path@ == records_path(id@)
            &&& wanted@ == record_id@
        },
        DatabaseInputType::CreateRecord(id, contents) => {
            &&& step matches Step::Read(path, Query::CreateRecord(target, given))
            &&& path@ == records_path(id@)
            &&& target@ == records_path(id@)
            &&& given@ == contents@
        },
    }
}

/// The first step of a request.
pub fn begin(request: DatabaseInputType) -> (step: Step)
    ensures
        begins(request, step),
{
    match request {
        DatabaseInputType::Stop => Step::Done(Outcome::Stop),
        DatabaseInputType::Noop => Step::Done(Outcome::Nothing),
        DatabaseInputType::DeleteCollection(_) => Step::Done(Outcome::Unavailable),
        DatabaseInputType::DeleteRecord(_, _) => Step::Done(Outcome::Unavailable),
        DatabaseInputType::CollectionsList => Step::Read(
            String::from_str(MOLECULE_DEFAULT_DATA_COLLECTION_META_PATH),
            Query::ListCollections,
        ),
        DatabaseInputType::Collection(id) => Step::Read(
            String::from_str(MOLECULE_DEFAULT_DATA_COLLECTION_META_PATH),
            Query::CollectionName(id),
        ),
        DatabaseInputType::CreateCollection(name) => Step::Read(
            String::from_str(MOLECULE_DEFAULT_DATA_COLLECTION_META_PATH),
            Query::CreateCollection(name),
        ),
        DatabaseInputType::CollectionRecords(id) => Step::Read(
            collection_path(id.as_str()),
            Query::ListRecords,
        ),
        DatabaseInputType::IdRecord(id, record_id) => Step::Read(
            collection_path(id.as_str()),
            Query::FindRecord(record_id),
        ),
        DatabaseInputType::CreateRecord(id, contents) => Step::Read(
            collection_path(id.as_str()),
            Query::CreateRecord(collection_path(id.as_str()), contents),
        ),
    }
}

/// Whether `step` is the first step of a line that was received from
/// `source`. The separators at the start and the end of the line are
/// taken off; what is left is the command line. The step is the first step
/// of the request that the command line stands for, or the rejection where
/// it stands for none.
pub open spec fn handles(line: Seq<char>, source: InputSource, step: Step) -> bool {
    match step {
        Step::Done(Outcome::Rejected(err)) => parse_spec(trimmed(line), source) == Err::<
            crate::proto::Request,
            crate::proto::ParseFailure,
        >(err@),
        _ => exists|request: DatabaseInputType|
            parse_spec(trimmed(line), source) == Ok::<
                crate::proto::Request,
                crate::proto::ParseFailure,
            >(request@) && begins(request, step),
    }
}

/// Takes the first step of a line that was received from `source`.
pub fn handle(line: String, source: InputSource) -> (step: Step)
    ensures
        handles(line@, source, step),
{
    match parse_str_to_db_input_type(trim(line.as_str()), source) {
        Ok(request) => {
            let step = begin(request);
            assert(begins(request, step));
            step
        },
        Err(err) => Step::Done(Outcome::Rejected(err)),
    }
}

/// Listing the collections of a registry whose file holds `stored`: the
/// collections that the bytes stand for, and nothing to write.
pub open spec fn listed_collections(stored: Seq<u8>, result: Result<Executed, StoreError>) -> bool {
    match result {
        Ok(done) => {
            &&& done.writes@.len() == 0
            &&& done.outcome matches Outcome::Collections(listed)
            &&& registry_collections(stored) == Some(listed.deep_view())
        },
        Err(err) => registry_collections(stored) is None && err is Decode,
    }
}

/// Looking up the name of a collection in a registry whose file holds
/// `stored`: the name of the first collection with the identifier, if
/// there is one, and nothing to write.
pub open spec fn named_collection(id: Seq<char>, stored: Seq<u8>, result: Result<
    Executed,
    StoreError,
>) -> bool {
    match result {
        Ok(done) => {
            &&& done.writes@.len() == 0
            &&& registry_collections(stored) is Some
            &&& done.outcome matches Outcome::CollectionName(name)
            &&& match name {
                Some(found) => first_name(registry_collections(stored)->0, id) == Some(found@),
                None => first_name(registry_collections(stored)->0, id) is None,
            }
        },
        Err(err) => registry_collections(stored) is None && err is Decode,
    }
}

/// Creating a collection in a registry whose file holds `stored`: a
/// generated identifier that the registry did not hold, and two files to
/// write, first the file of the new collection's records, which holds
/// none, then the registry with the new collection at its end. Where every
/// identifier that was drawn is taken, the registry holds an identifier of
/// the generated shape.
pub open spec fn created_collection(name: Seq<char>, stored: Seq<u8>, result: Result<
    Executed,
    StoreError,
>) -> bool {
    match result {
        Ok(done) => {
            &&& registry_collections(stored) is Some
            &&& done.outcome matches Outcome::CreatedCollection(id)
            &&& is_generated_id(id@)
            &&& !has_id(registry_collections(stored)->0, id@)
            &&& done.writes@.len() == 2
            &&& done.writes[0].path@ == records_path(id@)
            &&& done.writes[0].contents@ == no_records_file()
            &&& done.writes[1].path@ == MOLECULE_DEFAULT_DATA_COLLECTION_META_PATH@
            &&& registry_text(
                registry_collections(stored)->0.push(
                    CollectionData { collection_id: id@, name },
                ),
            ) matches Some(text)
            &&& done.writes[1].contents@ == vstd::utf8::encode_utf8(text)
        },
        Err(err) => match err {
            StoreError::Decode(_) => registry_collections(stored) is None,
            StoreError::IdentifierTaken => registry_collections(stored) is Some
                && crate::store::collection::holds_generated_id(registry_collections(stored)->0),
            StoreError::Encode(_) => registry_collections(stored) is Some && cannot_register(
                registry_collections(stored)->0,
                name,
            ),
        },
    }
}

/// A collection that was created is found by its identifier under its
/// name, leaves the identifiers of the registry distinct if they were, and
/// has a file of its own: the file that is written for its records is the
/// file of no collection that the registry held.
pub proof fn created_collection_is_found(name: Seq<char>, stored: Seq<u8>, done: Executed)
    requires
        created_collection(name, stored, Ok(done)),
    ensures
        ({
            let before = registry_collections(stored)->0;
            let id = done.outcome->CreatedCollection_0@;
            let after = before.push(CollectionData { collection_id: id, name });
            &&& !has_id(before, id)
            &&& first_name(after, id) == Some(name)
            &&& forall|other: Seq<char>| other != id ==> first_name(after, other) == first_name(
                before,
                other,
            )
            &&& ids_distinct(before) ==> ids_distinct(after)
            &&& forall|i: int|
                0 <= i < before.len() ==> records_path(#[trigger] before[i].collection_id)
                    != done.writes[0].path@
        }),
{
    let before = registry_collections(stored)->0;
    let id = done.outcome->CreatedCollection_0@;
    added_collection_is_listed(before, id, name);
    assert forall|i: int| 0 <= i < before.len() implies records_path(
        #[trigger] before[i].collection_id,
    ) != done.writes[0].path@ by {
        records_paths_differ(before[i].collection_id, id);
    }
}

/// Listing the records of a collection whose file holds `stored`: the
/// records that the bytes stand for, and nothing to write.
pub open spec fn listed_records(stored: Seq<u8>, result: Result<Executed, StoreError>) -> bool {
    match result {
        Ok(done) => {
            &&& done.writes@.len() == 0
            &&& done.outcome matches Outcome::Records(records)
            &&& parsed_objects(stored) == Some(records.deep_view())
        },
        Err(err) => parsed_objects(stored) is None && err is Decode,
    }
}

/// Looking up a record in a collection whose file holds `stored`: the first
/// record with the identifier, if there is one, and nothing to write.
pub open spec fn found_record(record_id: Seq<char>, stored: Seq<u8>, result: Result<
    Executed,
    StoreError,
>) -> bool {
    match result {
        Ok(done) => {
            &&& done.writes@.len() == 0
            &&& parsed_objects(stored) is Some
            &&& done.outcome matches Outcome::FoundRecord(found)
            &&& match found {
                Some(record) => first_with_id(parsed_objects(stored)->0, record_id) == Some(
                    record@,
                ),
                None => first_with_id(parsed_objects(stored)->0, record_id) is None,
            }
        },
        Err(err) => parsed_objects(stored) is None && err is Decode,
    }
}

/// Whether `file` holds the bytes of a collection that had the records
/// `before` and got one more, kept for `contents` under the identifier
/// `id`.
pub open spec fn keeps_record(
    before: Seq<Map<Seq<char>, crate::json::Json>>,
    contents: Map<Seq<char>, crate::json::Json>,
    id: Seq<char>,
    file: Seq<u8>,
) -> bool {
    exists|kept: Map<Seq<char>, crate::json::Json>|
        #![trigger is_stored_form(before, contents, kept, id)]
        is_stored_form(before, contents, kept, id) && records_file(before.push(kept)) == Some(
            file,
        )
}

/// Creating a record in a collection whose file, at `path`, holds
/// `stored`: the identifier of the record that is kept for the contents,
/// and one file to write, the collection's, with that record at its end.
pub open spec fn created_record(
    path: Seq<char>,
    contents: Map<Seq<char>, crate::json::Json>,
    stored: Seq<u8>,
    result: Result<Executed, StoreError>,
) -> bool {
    match result {
        Ok(done) => {
            &&& parsed_objects(stored) is Some
            &&& done.outcome matches Outcome::CreatedRecord(id)
            &&& done.writes@.len() == 1
            &&& done.writes[0].path@ == path
            &&& keeps_record(parsed_objects(stored)->0, contents, id@, done.writes[0].contents@)
        },
        Err(err) => match err {
            StoreError::Decode(_) => parsed_objects(stored) is None,
            StoreError::IdentifierTaken => {
                &&& parsed_objects(stored) is Some
                &&& !contents.contains_key("_id"@)
                &&& crate::store::record::holds_generated_id(parsed_objects(stored)->0)
            },
            StoreError::Encode(_) => parsed_objects(stored) is Some && cannot_keep(
                parsed_objects(stored)->0,
                contents,
            ),
        },
    }
}

/// Whether `result` is what comes of `query` on a file that holds the bytes
/// `stored`.
pub open spec fn answered(query: Query, stored: Seq<u8>, result: Result<Executed, StoreError>)
    -> bool {
    match query {
        Query::ListCollections => listed_collections(stored, result),
        Query::CollectionName(id) => named_collection(id@, stored, result),
        Query::CreateCollection(name) => created_collection(name@, stored, result),
        Query::ListRecords => listed_records(stored, result),
        Query::FindRecord(record_id) => found_record(record_id@, stored, result),
        Query::CreateRecord(path, contents) => created_record(path@, contents@, stored, result),
    }
}

impl Molecule {
    /// What comes of a query on a file that holds the bytes `stored`.
    pub fn answer(&self, query: Query, stored: &[u8]) -> (result: Result<Executed, StoreError>)
        ensures
            answered(query, stored@, result),
    {
        match query {
            Query::ListCollections => match self.list_collections(stored) {
                Ok(listed) => Ok(
                    Executed { outcome: Outcome::Collections(listed), writes: Vec::new() },
                ),
                Err(err) => Err(err),
            },
            Query::CollectionName(id) => match self.get_collection_name(stored, id) {
                Ok(name) => Ok(
                    Executed { outcome: Outcome::CollectionName(name), writes: Vec::new() },
                ),
                Err(err) => Err(err),
            },
            Query::CreateCollection(name) => self.answer_create_collection(name, stored),
            Query::ListRecords => match self.get_records(stored) {
                Ok(records) => Ok(
                    Executed { outcome: Outcome::Records(records), writes: Vec::new() },
                ),
                Err(err) => Err(err),
            },
            Query::FindRecord(record_id) => match self.get_record_by_id(stored, record_id) {
                Ok(found) => Ok(
                    Executed { outcome: Outcome::FoundRecord(found), writes: Vec::new() },
                ),
                Err(err) => Err(err),
            },
            Query::CreateRecord(path, contents) => self.answer_create_record(
                path,
                contents,
                stored,
            ),
        }
    }

    /// Creates a collection and lists the files that this leaves to write.
    fn answer_create_collection(&self, name: String, stored: &[u8]) -> (result: Result<
        Executed,
        StoreError,
    >)
        ensures
            created_collection(name@, stored@, result),
    {
        match self.create_collection(stored, name) {
            Ok(made) => {
                let mut writes: Vec<StoreWrite> = Vec::new();
                writes.push(StoreWrite { path: made.records_path, contents: made.records_file });
                writes.push(
                    StoreWrite {
                        path: String::from_str(MOLECULE_DEFAULT_DATA_COLLECTION_META_PATH),
                        contents: made.registry_file,
                    },
                );
                Ok(Executed { outcome: Outcome::CreatedCollection(made.collection_id), writes })
            },
            Err(err) => Err(err),
        }
    }

    /// Creates a record and lists the file that this leaves to write.
    fn answer_create_record(&self, path: String, contents: Record, stored: &[u8]) -> (result:
        Result<Executed, StoreError>)
        ensures
            created_record(path@, contents@, stored@, result),
    {
        match self.create_record(stored, contents) {
            Ok(made) => {
                let mut writes: Vec<StoreWrite> = Vec::new();
                let ghost kept = made.records.deep_view().last();
                let ghost file = made.file@;
                let ghost id = made.record_id@;
                writes.push(StoreWrite { path, contents: made.file });
                let done = Executed { outcome: Outcome::CreatedRecord(made.record_id), writes };
                proof {
                    assert(is_stored_form(parsed_objects(stored@)->0, contents@, kept, id));
                    assert(records_file(parsed_objects(stored@)->0.push(kept)) == Some(file));
                    assert(keeps_record(parsed_objects(stored@)->0, contents@, id, file));
                }
                Ok(done)
            },
            Err(err) => Err(err),
        }
    }
}

} // verus!
