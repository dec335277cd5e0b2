//! Collections: the registry that gives each collection its identifier and
//! name, and the file that holds the records of each.

use vstd::prelude::*;
use vstd::string::StringExecFns;
use vstd::string::StrSliceExecFns;
use crate::constants::MOLECULE_DEFAULT_DATA_COLLECTIONS_PATH;
use crate::json::Json;
use crate::json::empty_object;
use crate::json::error_text;
use crate::json::json_text;
use crate::json::list_of_objects;
use crate::json::object_entries;
use crate::json::objects_text;
use crate::json::parse_objects;
use crate::json::parsed_objects;
use crate::json::set_text;
use crate::json::text_field;
use crate::json::text_under;
use crate::molecule::Molecule;
use crate::store::id::FRESH_ID_ATTEMPTS;
use crate::store::id::generate_id;
use crate::store::id::is_generated_id;
use crate::store::record::Record;
use crate::store::error::StoreError;
use crate::text::str_eq;

verus! {

/// A named group of records.
#[derive(Debug, Clone, PartialEq, Eq, Hash)]
pub struct Collection {
    pub collection_id: String,
    pub name: String,
}

/// A collection as a mathematical value.
pub struct CollectionData {
    pub collection_id: Seq<char>,
    pub name: Seq<char>,
}

impl View for Collection {
    type V = CollectionData;

    open spec fn view(&self) -> CollectionData {
        CollectionData { collection_id: self.collection_id@, name: self.name@ }
    }
}

impl DeepView for Collection {
    type V = CollectionData;

    open spec fn deep_view(&self) -> CollectionData {
        self@
    }
}

/// The JSON object that stands for a collection in the registry.
pub open spec fn collection_object(collection: CollectionData) -> Map<Seq<char>, Json> {
    Map::<Seq<char>, Json>::empty().insert(
        "collection_id"@,
        Json::Text(collection.collection_id),
    ).insert("name"@, Json::Text(collection.name))
}

/// The collection that a JSON object of the registry stands for: it needs a
/// text under `collection_id` and one under `name`; what else it holds is
/// passed over.
pub open spec fn object_collection(entries: Map<Seq<char>, Json>) -> Option<CollectionData> {
    match (text_under(entries, "collection_id"@), text_under(entries, "name"@)) {
        (Some(collection_id), Some(name)) => Some(CollectionData { collection_id, name }),
        _ => None,
    }
}

/// The collections that a list of JSON objects stands for, or `None` where
/// one of them stands for none.
pub open spec fn objects_collections(objects: Seq<Map<Seq<char>, Json>>) -> Option<
    Seq<CollectionData>,
>
    decreases objects.len(),
{
    if objects.len() == 0 {
        Some(Seq::empty())
    } else {
        match (objects_collections(objects.drop_last()), object_collection(objects.last())) {
            (Some(before), Some(collection)) => Some(before.push(collection)),
            _ => None,
        }
    }
}

/// The collections that the bytes of a registry file hold, or `None` where
/// the bytes are no JSON list of such objects.
pub open spec fn registry_collections(stored: Seq<u8>) -> Option<Seq<CollectionData>> {
    match parsed_objects(stored) {
        Some(objects) => objects_collections(objects),
        None => None,
    }
}

/// The text of the registry for the given collections: the JSON list of
/// their objects, or `None` where `serde_json` cannot write it.
pub open spec fn registry_text(collections: Seq<CollectionData>) -> Option<Seq<char>> {
    json_text(
        list_of_objects(collections.map_values(|c: CollectionData| collection_object(c))),
    )
}

/// The name of the first collection whose identifier is `collection_id`.
pub open spec fn first_name(collections: Seq<CollectionData>, collection_id: Seq<char>) -> Option<
    Seq<char>,
>
    decreases collections.len(),
{
    if collections.len() == 0 {
        None
    } else if collections[0].collection_id == collection_id {
        Some(collections[0].name)
    } else {
        first_name(collections.drop_first(), collection_id)
    }
}

/// Whether a collection with this identifier is in the sequence.
pub open spec fn has_id(collections: Seq<CollectionData>, collection_id: Seq<char>) -> bool {
    exists|i: int| 0 <= i < collections.len() && collections[i].collection_id == collection_id
}

/// Whether no identifier occurs twice in the sequence.
pub open spec fn ids_distinct(collections: Seq<CollectionData>) -> bool {
    forall|i: int, j: int|
        0 <= i < j < collections.len() ==> collections[i].collection_id
            != collections[j].collection_id
}

/// The path of the file that holds the records of a collection.
pub open spec fn records_path(collection_id: Seq<char>) -> Seq<char> {
    MOLECULE_DEFAULT_DATA_COLLECTIONS_PATH@ + "/"@ + collection_id + ".json"@
}

/// The path of the file that holds the records of a collection.
pub fn collection_path(collection_id: &str) -> (path: String)
    ensures
        path@ == records_path(collection_id@),
{
    let mut path = String::from_str(MOLECULE_DEFAULT_DATA_COLLECTIONS_PATH);
    path.append("/");
    path.append(collection_id);
    path.append(".json");
    path
}

impl Collection {
    /// The JSON object that stands for the collection in the registry.
    pub fn to_object(&self) -> (object: Record)
        ensures
            object@ == collection_object(self@),
    {
        let mut object = empty_object();
        set_text(&mut object, String::from_str("collection_id"), self.collection_id.clone());
        set_text(&mut object, String::from_str("name"), self.name.clone());
        object
    }

    /// The collection that a JSON object of the registry stands for.
    pub fn from_object(object: &Record) -> (read: Option<Collection>)
        ensures
            match read {
                Some(collection) => object_collection(object@) == Some(collection@),
                None => object_collection(object@) is None,
            },
    {
        match (text_field(object, "collection_id"), text_field(object, "name")) {
            (Some(collection_id), Some(name)) => Some(Collection { collection_id, name }),
            _ => None,
        }
    }
}

/// Where a prefix of the objects stands for no collections, neither does
/// the whole.
pub proof fn lemma_objects_collections_prefix(objects: Seq<Map<Seq<char>, Json>>, n: int)
    requires
        0 <= n <= objects.len(),
        objects_collections(objects.take(n)) is None,
    ensures
        objects_collections(objects) is None,
    decreases objects.len(),
{
    if n < objects.len() {
        assert(objects.drop_last().take(n) =~= objects.take(n));
        lemma_objects_collections_prefix(objects.drop_last(), n);
    } else {
        assert(objects.take(n) =~= objects);
    }
}

/// The JSON objects that stand for the collections in the registry.
pub fn collection_objects(collections: &Vec<Collection>) -> (objects: Vec<Record>)
    ensures
        objects.deep_view() == collections.deep_view().map_values(
            |c: CollectionData| collection_object(c),
        ),
{
    let mut objects: Vec<Record> = Vec::new();
    let mut i: usize = 0;
    while i < collections.len()
        invariant
            i <= collections.len(),
            objects.len() == i,
            forall|k: int|
                0 <= k < i ==> (#[trigger] objects[k])@ == collection_object(collections[k]@),
        decreases collections.len() - i,
    {
        objects.push(collections[i].to_object());
        i += 1;
    }
    assert(objects.deep_view() =~= collections.deep_view().map_values(
        |c: CollectionData| collection_object(c),
    ));
    objects
}

/// Writes the collections as the text of the registry.
pub fn collections_text(collections: &Vec<Collection>) -> (written: Result<String, StoreError>)
    ensures
        match written {
            Ok(text) => registry_text(collections.deep_view()) == Some(text@),
            Err(err) => registry_text(collections.deep_view()) is None && err is Encode,
        },
{
    let objects = collection_objects(collections);
    assert(objects.deep_view() =~= Seq::new(
        objects.len() as nat,
        |i: int| object_entries(objects[i].fields),
    ));
    match objects_text(&objects) {
        Ok(text) => Ok(text),
        Err(err) => Err(StoreError::Encode(error_text(&err))),
    }
}

/// Picks the name of the first collection whose identifier is
/// `collection_id`.
pub fn find_name(collections: &Vec<Collection>, collection_id: &str) -> (name: Option<String>)
    ensures
        match name {
            Some(found) => first_name(collections.deep_view(), collection_id@) == Some(found@),
            None => first_name(collections.deep_view(), collection_id@) is None,
        },
{
    let ghost all = collections.deep_view();
    let mut i: usize = 0;
    assert(all.skip(0) =~= all);
    while i < collections.len()
        invariant
            i <= collections.len(),
            all == collections.deep_view(),
            first_name(all, collection_id@) == first_name(all.skip(i as int), collection_id@),
        decreases collections.len() - i,
    {
        proof {
            assert(all.skip(i as int)[0] == collections[i as int]@);
            assert(all.skip(i as int).drop_first() =~= all.skip(i + 1));
        }
        if str_eq(collections[i].collection_id.as_str(), collection_id) {
            return Some(collections[i].name.clone());
        }
        i += 1;
    }
    None
}

/// Adds a collection with the given identifier and name to the end of the
/// sequence.
pub fn add_collection(collections: Vec<Collection>, collection_id: String, name: String) -> (longer:
    Vec<Collection>)
    ensures
        longer.deep_view() == collections.deep_view().push(
            CollectionData { collection_id: collection_id@, name: name@ },
        ),
{
    let mut longer = collections;
    longer.push(Collection { collection_id, name });
    assert(longer.deep_view() =~= collections.deep_view().push(
        CollectionData { collection_id: collection_id@, name: name@ },
    ));
    longer
}

/// What creating a collection leaves: the collections of the registry, the
/// identifier of the new one, the bytes of the registry file, and the path
/// and bytes of the file for the new collection's records. The file of the
/// records is written first.
#[derive(Debug, Clone, PartialEq, Eq)]
pub struct CollectionCreated {
    pub collections: Vec<Collection>,
    pub collection_id: String,
    pub registry_file: Vec<u8>,
    pub records_path: String,
    pub records_file: Vec<u8>,
}

/// Whether `serde_json` cannot write the registry with one more collection
/// of this name, for some generated identifier that the registry does not
/// hold.
pub open spec fn cannot_register(before: Seq<CollectionData>, name: Seq<char>) -> bool {
    exists|id: Seq<char>| #[trigger]
        is_generated_id(id) && !has_id(before, id) && registry_text(
            before.push(CollectionData { collection_id: id, name }),
        ) is None
}

/// Whether the registry holds a collection under an identifier of the
/// generated shape.
pub open spec fn holds_generated_id(collections: Seq<CollectionData>) -> bool {
    exists|id: Seq<char>| #[trigger] is_generated_id(id) && has_id(collections, id)
}

/// Whether a collection with this identifier is in the sequence.
pub fn has_collection(collections: &Vec<Collection>, collection_id: &str) -> (held: bool)
    ensures
        held == has_id(collections.deep_view(), collection_id@),
{
    proof {
        lemma_first_name_push(
            collections.deep_view(),
            CollectionData { collection_id: collection_id@, name: Seq::empty() },
            collection_id@,
        );
    }
    find_name(collections, collection_id).is_some()
}

/// The identifier that was drawn, if the registry does not hold it.
pub fn unused_collection_id(collections: &Vec<Collection>, drawn: String) -> (unused: Option<
    String,
>)
    ensures
        unused == if has_id(collections.deep_view(), drawn@) {
            None
        } else {
            Some(drawn)
        },
{
    if has_collection(collections, drawn.as_str()) {
        None
    } else {
        Some(drawn)
    }
}

/// Generates an identifier that the registry does not hold. It draws at
/// most `FRESH_ID_ATTEMPTS` identifiers and gives up where the registry
/// holds each of them.
fn fresh_collection_id(collections: &Vec<Collection>) -> (fresh: Option<String>)
    ensures
        match fresh {
            Some(id) => is_generated_id(id@) && !has_id(collections.deep_view(), id@),
            None => holds_generated_id(collections.deep_view()),
        },
{
    let mut attempt: usize = 0;
    loop
        invariant
            attempt < FRESH_ID_ATTEMPTS,
        decreases FRESH_ID_ATTEMPTS - attempt,
    {
        let drawn = generate_id();
        let ghost taken = drawn@;
        match unused_collection_id(collections, drawn) {
            Some(id) => {
                return Some(id);
            },
            None => {
                attempt += 1;
                if attempt >= FRESH_ID_ATTEMPTS {
                    assert(is_generated_id(taken) && has_id(collections.deep_view(), taken));
                    return None;
                }
            },
        }
    }
}

/// The bytes of a file of records that holds none: the text `[]`.
pub open spec fn no_records_file() -> Seq<u8> {
    seq![0x5Bu8, 0x5Du8]
}

/// The objects that stand for collections in the registry are read back as
/// those collections.
pub proof fn collection_objects_read_back(collections: Seq<CollectionData>)
    ensures
        forall|c: CollectionData| object_collection(#[trigger] collection_object(c)) == Some(c),
        objects_collections(collections.map_values(|c: CollectionData| collection_object(c)))
            == Some(collections),
    decreases collections.len(),
{
    assert forall|c: CollectionData| object_collection(#[trigger] collection_object(c)) == Some(
        c,
    ) by {
        lemma_field_names_differ();
    }
    let objects = collections.map_values(|c: CollectionData| collection_object(c));
    if collections.len() > 0 {
        collection_objects_read_back(collections.drop_last());
        assert(objects.drop_last() =~= collections.drop_last().map_values(
            |c: CollectionData| collection_object(c),
        ));
        assert(objects.last() == collection_object(collections.last()));
        assert(collections.drop_last().push(collections.last()) =~= collections);
    }
}

/// The two keys of a collection's object are different texts.
proof fn lemma_field_names_differ()
    ensures
        "collection_id"@ != "name"@,
{
    reveal_strlit("collection_id");
    reveal_strlit("name");
    assert("collection_id"@.len() == 13);
    assert("name"@.len() == 4);
}

/// A collection that was added under an identifier that the registry did
/// not hold is listed with its name, is found by its identifier, and leaves
/// the identifiers distinct if they were.
pub proof fn added_collection_is_listed(
    before: Seq<CollectionData>,
    collection_id: Seq<char>,
    name: Seq<char>,
)
    requires
        !has_id(before, collection_id),
    ensures
        ({
            let after = before.push(CollectionData { collection_id, name });
            &&& after.len() == before.len() + 1
            &&& after.last() == CollectionData { collection_id, name }
            &&& has_id(after, collection_id)
            &&& first_name(after, collection_id) == Some(name)
            &&& forall|other: Seq<char>|
                other != collection_id ==> first_name(after, other) == first_name(before, other)
            &&& ids_distinct(before) ==> ids_distinct(after)
        }),
{
    let added = CollectionData { collection_id, name };
    let after = before.push(added);
    assert(after[before.len() as int].collection_id == collection_id);
    lemma_first_name_push(before, added, collection_id);
    assert forall|other: Seq<char>| other != collection_id implies first_name(after, other)
        == first_name(before, other) by {
        lemma_first_name_push(before, added, other);
    }
}

/// The name that is found in a sequence with one more collection at its
/// end: the name that was found before, or else the name of the new
/// collection if it has the identifier.
pub proof fn lemma_first_name_push(
    before: Seq<CollectionData>,
    added: CollectionData,
    collection_id: Seq<char>,
)
    ensures
        first_name(before.push(added), collection_id) == match first_name(before, collection_id) {
            Some(name) => Some(name),
            None => if added.collection_id == collection_id {
                Some(added.name)
            } else {
                None
            },
        },
        first_name(before, collection_id) is Some <==> has_id(before, collection_id),
    decreases before.len(),
{
    let after = before.push(added);
    if before.len() == 0 {
        assert(after.drop_first() =~= Seq::<CollectionData>::empty());
    } else {
        assert(after.drop_first() =~= before.drop_first().push(added));
        lemma_first_name_push(before.drop_first(), added, collection_id);
        if before[0].collection_id != collection_id {
            if has_id(before, collection_id) {
                let i = choose|i: int|
                    0 <= i < before.len() && before[i].collection_id == collection_id;
                assert(before.drop_first()[i - 1].collection_id == collection_id);
            }
            if has_id(before.drop_first(), collection_id) {
                let i = choose|i: int|
                    0 <= i < before.drop_first().len() && before.drop_first()[i].collection_id
                        == collection_id;
                assert(before[i + 1].collection_id == collection_id);
            }
        }
    }
}

/// Different collections keep their records in different files.
pub proof fn records_paths_differ(one: Seq<char>, other: Seq<char>)
    requires
        one != other,
    ensures
        records_path(one) != records_path(other),
{
    let head = MOLECULE_DEFAULT_DATA_COLLECTIONS_PATH@ + "/"@;
    let a = records_path(one);
    let b = records_path(other);
    if a == b {
        assert(a.len() == head.len() + one.len() + ".json"@.len());
        assert(b.len() == head.len() + other.len() + ".json"@.len());
        assert(a.subrange(head.len() as int, (head.len() + one.len()) as int) =~= one);
        assert(b.subrange(head.len() as int, (head.len() + other.len()) as int) =~= other);
    }
}

/// The collection store of a server. `stored` is what the registry file
/// holds; writing what comes back is left to the caller.
pub trait MoleculeCoreCollectionApi {
    /// Adds a collection with the given name and a fresh identifier.
    fn create_collection(&self, stored: &[u8], name: String) -> Result<
        CollectionCreated,
        StoreError,
    >;

    /// The collections of the registry.
    fn list_collections(&self, stored: &[u8]) -> Result<Vec<Collection>, StoreError>;

    /// The name of the collection with the given identifier.
    fn get_collection_name(&self, stored: &[u8], collection_id: String) -> Result<
        Option<String>,
        StoreError,
    >;
}

impl MoleculeCoreCollectionApi for Molecule {
    /// Reads the collections from the bytes of the registry file.
    fn list_collections(&self, stored: &[u8]) -> (listed: Result<Vec<Collection>, StoreError>)
        ensures
            match listed {
                Ok(collections) => registry_collections(stored@) == Some(collections.deep_view()),
                Err(err) => registry_collections(stored@) is None && err is Decode,
            },
    {
        let objects = match parse_objects(stored) {
            Ok(objects) => objects,
            Err(err) => {
                return Err(StoreError::Decode(error_text(&err)));
            },
        };
        let ghost all = Seq::new(objects.len() as nat, |i: int| object_entries(objects[i].fields));
        let mut collections: Vec<Collection> = Vec::new();
        let mut i: usize = 0;
        assert(all.take(0) =~= Seq::<Map<Seq<char>, Json>>::empty());
        assert(collections.deep_view() =~= Seq::<CollectionData>::empty());
        while i < objects.len()
            invariant
                i <= objects.len(),
                all == Seq::new(objects.len() as nat, |i: int| object_entries(objects[i].fields)),
                parsed_objects(stored@) == Some(all),
                objects_collections(all.take(i as int)) == Some(collections.deep_view()),
            decreases objects.len() - i,
        {
            let ghost before = collections.deep_view();
            proof {
                assert(all.take(i + 1).drop_last() =~= all.take(i as int));
                assert(all.take(i + 1).last() == objects[i as int]@);
            }
            match Collection::from_object(&objects[i]) {
                Some(collection) => {
                    collections.push(collection);
                    assert(collections.deep_view() =~= before.push(collection@));
                },
                None => {
                    proof {
                        lemma_objects_collections_prefix(all, i + 1);
                    }
                    return Err(
                        StoreError::Decode(
                            String::from_str("an entry lacks the text `collection_id` or `name`"),
                        ),
                    );
                },
            }
            i += 1;
        }
        assert(all.take(objects.len() as int) =~= all);
        Ok(collections)
    }

    /// Reads the registry from the bytes of its file and picks the name of the
    /// first collection whose identifier is `collection_id`.
    fn get_collection_name(&self, stored: &[u8], collection_id: String) -> (name: Result<
        Option<String>,
        StoreError,
    >)
        ensures
            match name {
                Ok(Some(found)) => registry_collections(stored@) is Some && first_name(
                    registry_collections(stored@)->0,
                    collection_id@,
                ) == Some(found@),
                Ok(None) => registry_collections(stored@) is Some && first_name(
                    registry_collections(stored@)->0,
                    collection_id@,
                ) is None,
                Err(err) => registry_collections(stored@) is None && err is Decode,
            },
    {
        match self.list_collections(stored) {
            Ok(collections) => Ok(find_name(&collections, collection_id.as_str())),
            Err(err) => Err(err),
        }
    }

    /// Adds a collection with the given name to the registry whose file
    /// holds the bytes `stored`, under a generated identifier that the
    /// registry does not hold. Where every identifier that is drawn is
    /// taken, nothing is added.
    fn create_collection(&self, stored: &[u8], name: String) -> (created: Result<
        CollectionCreated,
        StoreError,
    >)
        ensures
            match created {
                Ok(made) => {
                    &&& registry_collections(stored@) is Some
                    &&& is_generated_id(made.collection_id@)
                    &&& !has_id(registry_collections(stored@)->0, made.collection_id@)
                    &&& made.collections.deep_view() == registry_collections(stored@)->0.push(
                        CollectionData { collection_id: made.collection_id@, name: name@ },
                    )
                    &&& registry_text(made.collections.deep_view()) is Some
                    &&& made.registry_file@ == vstd::utf8::encode_utf8(
                        registry_text(made.collections.deep_view())->0,
                    )
                    &&& made.records_path@ == records_path(made.collection_id@)
                    &&& made.records_file@ == no_records_file()
                },
                Err(err) => match err {
                    StoreError::Decode(_) => registry_collections(stored@) is None,
                    StoreError::IdentifierTaken => registry_collections(stored@) is Some
                        && holds_generated_id(registry_collections(stored@)->0),
                    StoreError::Encode(_) => registry_collections(stored@) is Some
                        && cannot_register(registry_collections(stored@)->0, name@),
                },
            },
    {
        let before = match self.list_collections(stored) {
            Ok(collections) => collections,
            Err(err) => {
                return Err(err);
            },
        };
        let collection_id = match fresh_collection_id(&before) {
            Some(id) => id,
            None => {
                return Err(StoreError::IdentifierTaken);
            },
        };
        let collections = add_collection(before, collection_id.clone(), name);
        let records_path = collection_path(collection_id.as_str());
        let mut records_file: Vec<u8> = Vec::new();
        records_file.push(0x5Bu8);
        records_file.push(0x5Du8);
        assert(records_file@ =~= no_records_file());
        match collections_text(&collections) {
            Ok(text) => Ok(
                CollectionCreated {
                    collections,
                    collection_id,
                    registry_file: text.as_str().as_bytes_vec(),
                    records_path,
                    records_file,
                },
            ),
            Err(err) => Err(err),
        }
    }
}

} // verus!
