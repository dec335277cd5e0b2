use molecule::molecule::Molecule;
use molecule::store::collection::Collection;
use molecule::store::collection::MoleculeCoreCollectionApi;
use molecule::store::collection::add_collection;
use molecule::store::collection::collection_objects;
use molecule::store::collection::collection_path;
use molecule::store::collection::collections_text;
use molecule::store::collection::find_name;
use molecule::store::collection::has_collection;
use molecule::store::collection::unused_collection_id;
use molecule::store::id::looks_generated;
use molecule::store::record::MoleculeCoreRecordsApi;
use molecule::store::record::Record;
use molecule::store::error::StoreError;
use molecule::store::record::add_record;
use molecule::store::record::encode_records;
use molecule::store::record::find_record;
use molecule::store::record::has_record;
use molecule::store::record::unused_record_id;
use molecule::store::id::FRESH_ID_ATTEMPTS;
use molecule::store::record::found_text;
use molecule::store::record::pretty_text;
use molecule::store::record::records_text;

fn server() -> Molecule {
    Molecule::new("127.0.0.1".to_string(), 8080)
}

fn object(text: &str) -> Record {
    Record { fields: serde_json::from_str::<serde_json::Map<String, serde_json::Value>>(text).unwrap() }
}

fn collection(id: &str, name: &str) -> Collection {
    Collection { collection_id: id.to_string(), name: name.to_string() }
}

#[test]
fn looks_generated_accepts_random_uuids_only() {
    assert!(looks_generated("67e55044-10b1-426f-9247-bb680e5fe0c8"));
    assert!(looks_generated("00000000-0000-4000-8000-000000000000"));
    assert!(looks_generated("ffffffff-ffff-4fff-bfff-ffffffffffff"));
    assert!(!looks_generated(""));
    assert!(!looks_generated("67e55044-10b1-426f-9247-bb680e5fe0c"));
    assert!(!looks_generated("67e55044-10b1-426f-9247-bb680e5fe0c8a"));
    assert!(!looks_generated("67E55044-10B1-426F-9247-BB680E5FE0C8"));
    assert!(!looks_generated("67e5504410b1426f9247bb680e5fe0c8"));
    assert!(!looks_generated("67e55044-10b1-126f-9247-bb680e5fe0c8"));
    assert!(!looks_generated("67e55044-10b1-426f-c247-bb680e5fe0c8"));
    assert!(!looks_generated("67e55044-10b1-426f-7247-bb680e5fe0c8"));
    assert!(!looks_generated("67e55044_10b1-426f-9247-bb680e5fe0c8"));
    assert!(!looks_generated("67e55044-10b1-426f-9247-bb680e5fe0cg"));
}

#[test]
fn looks_generated_agrees_with_uuid() {
    for _ in 0..200 {
        let fresh = uuid::Uuid::new_v4().to_string();
        assert!(looks_generated(&fresh), "{}", fresh);
    }
    let parsed = uuid::Uuid::parse_str("67e55044-10b1-426f-9247-bb680e5fe0c8").unwrap();
    assert_eq!(parsed.get_version_num(), 4);
}

#[test]
fn collection_path_is_under_the_collections_directory() {
    assert_eq!(collection_path("abc"), ".molecule/data/collections/abc.json");
    assert_eq!(collection_path(""), ".molecule/data/collections/.json");
    assert_eq!(
        collection_path("67e55044-10b1-426f-9247-bb680e5fe0c8"),
        ".molecule/data/collections/67e55044-10b1-426f-9247-bb680e5fe0c8.json"
    );
}

#[test]
fn collection_objects_hold_both_texts() {
    let one = collection("c1", "users");
    assert_eq!(one.to_object(), object("{\"collection_id\":\"c1\",\"name\":\"users\"}"));
    assert_eq!(Collection::from_object(&one.to_object()), Some(collection("c1", "users")));
    assert_eq!(Collection::from_object(&object("{\"collection_id\":\"c1\",\"name\":\"users\",\"more\":1}")), Some(collection("c1", "users")));
    assert_eq!(Collection::from_object(&object("{\"collection_id\":\"c1\"}")), None);
    assert_eq!(Collection::from_object(&object("{\"name\":\"users\"}")), None);
    assert_eq!(Collection::from_object(&object("{\"collection_id\":7,\"name\":\"users\"}")), None);
    assert_eq!(Collection::from_object(&object("{\"collection_id\":\"c1\",\"name\":null}")), None);
    assert_eq!(collection_objects(&vec![collection("a", "x"), collection("b", "y")]), vec![object("{\"collection_id\":\"a\",\"name\":\"x\"}"), object("{\"collection_id\":\"b\",\"name\":\"y\"}")]);
}

#[test]
fn collections_text_is_the_registry_json() {
    assert_eq!(collections_text(&Vec::new()), Ok("[]".to_string()));
    assert_eq!(
        collections_text(&vec![collection("c1", "users"), collection("c2", "a \"b\"")]),
        Ok("[{\"collection_id\":\"c1\",\"name\":\"users\"},{\"collection_id\":\"c2\",\"name\":\"a \\\"b\\\"\"}]".to_string())
    );
}

#[test]
fn list_collections_reads_the_registry() {
    let m = server();
    assert_eq!(m.list_collections(b"[]"), Ok(Vec::new()));
    assert_eq!(
        m.list_collections(b" [ {\"name\":\"users\",\"collection_id\":\"c1\"}, {\"collection_id\":\"c2\",\"name\":\"orders\"} ] "),
        Ok(vec![collection("c1", "users"), collection("c2", "orders")])
    );
}

#[test]
fn list_collections_rejects_what_is_no_registry() {
    let m = server();
    for stored in [&b""[..], b"{}", b"null", b"[1]", b"[{\"collection_id\":\"c1\"}]", b"[{\"collection_id\":\"c1\",\"name\":3}]", b"[{\"collection_id\":\"c1\",\"name\":\"n\"}", b"\xff\xfe"] {
        match m.list_collections(stored) {
            Err(StoreError::Decode(said)) => assert!(!said.is_empty()),
            other => panic!("{:?} gave {:?}", stored, other),
        }
    }
}

#[test]
fn find_name_takes_the_first_match() {
    let listed = vec![collection("c1", "users"), collection("c2", "orders"), collection("c1", "shadow")];
    assert_eq!(find_name(&listed, "c1"), Some("users".to_string()));
    assert_eq!(find_name(&listed, "c2"), Some("orders".to_string()));
    assert_eq!(find_name(&listed, "c3"), None);
    assert_eq!(find_name(&Vec::new(), "c1"), None);
}

#[test]
fn get_collection_name_reads_then_finds() {
    let m = server();
    let stored = b"[{\"collection_id\":\"c1\",\"name\":\"users\"},{\"collection_id\":\"c2\",\"name\":\"orders\"}]";
    assert_eq!(m.get_collection_name(stored, "c2".to_string()), Ok(Some("orders".to_string())));
    assert_eq!(m.get_collection_name(stored, "zz".to_string()), Ok(None));
    assert!(matches!(m.get_collection_name(b"oops", "c2".to_string()), Err(StoreError::Decode(_))));
}

#[test]
fn add_collection_appends() {
    let longer = add_collection(vec![collection("c1", "users")], "c2".to_string(), "orders".to_string());
    assert_eq!(longer, vec![collection("c1", "users"), collection("c2", "orders")]);
}

#[test]
fn create_collection_then_list_includes_it() {
    let m = server();
    let stored = b"[{\"collection_id\":\"c1\",\"name\":\"users\"}]";
    let made = m.create_collection(stored, "orders".to_string()).unwrap();
    assert!(looks_generated(&made.collection_id));
    assert!(uuid::Uuid::parse_str(&made.collection_id).is_ok());
    assert_ne!(made.collection_id, "c1");
    assert_eq!(made.collections, vec![collection("c1", "users"), collection(&made.collection_id, "orders")]);
    assert_eq!(made.records_path, format!(".molecule/data/collections/{}.json", made.collection_id));
    assert_eq!(made.records_file, b"[]".to_vec());
    assert_eq!(
        String::from_utf8(made.registry_file.clone()).unwrap(),
        format!("[{{\"collection_id\":\"c1\",\"name\":\"users\"}},{{\"collection_id\":\"{}\",\"name\":\"orders\"}}]", made.collection_id)
    );
    let listed = m.list_collections(&made.registry_file).unwrap();
    assert_eq!(listed, made.collections);
    assert!(listed.iter().any(|c| c.name == "orders" && c.collection_id == made.collection_id));
    assert_eq!(m.get_collection_name(&made.registry_file, made.collection_id.clone()), Ok(Some("orders".to_string())));
    assert_eq!(m.get_records(&made.records_file), Ok(Vec::new()));
}

#[test]
fn create_collection_on_a_broken_registry_fails() {
    let m = server();
    assert!(matches!(m.create_collection(b"not json", "orders".to_string()), Err(StoreError::Decode(_))));
}

#[test]
fn many_creations_in_turn_keep_every_collection() {
    let m = server();
    let mut registry = b"[]".to_vec();
    let mut ids = Vec::new();
    for n in 0..25 {
        let made = m.create_collection(&registry, format!("collection-{}", n)).unwrap();
        registry = made.registry_file;
        ids.push(made.collection_id);
    }
    let listed = m.list_collections(&registry).unwrap();
    assert_eq!(listed.len(), 25);
    for (n, entry) in listed.iter().enumerate() {
        assert_eq!(entry.name, format!("collection-{}", n));
        assert_eq!(entry.collection_id, ids[n]);
    }
    let mut distinct = ids.clone();
    distinct.sort();
    distinct.dedup();
    assert_eq!(distinct.len(), 25);
}

#[test]
fn registry_round_trip() {
    let m = server();
    let listed = vec![collection("c1", "users"), collection("c2", "caf\u{e9} \"x\" \\ \n"), collection("", "")];
    let text = collections_text(&listed).unwrap();
    assert_eq!(m.list_collections(text.as_bytes()), Ok(listed));
}

#[test]
fn record_accessors() {
    let record = object("{\"_id\":\"r1\",\"k\":\"v\",\"n\":5}");
    assert!(record.contains_key("_id"));
    assert!(record.contains_key("n"));
    assert!(!record.contains_key("missing"));
    assert_eq!(record.text("k"), Some("v".to_string()));
    assert_eq!(record.text("n"), None);
    assert_eq!(record.text("missing"), None);
    assert_eq!(record.id(), Some("r1".to_string()));
    assert_eq!(object("{\"_id\":5}").id(), None);
    assert_eq!(object("{}").id(), None);
}

#[test]
fn find_record_takes_the_first_match() {
    let records = vec![object("{\"_id\":\"a\",\"n\":1}"), object("{\"_id\":\"b\",\"n\":2}"), object("{\"_id\":\"a\",\"n\":3}"), object("{\"_id\":7}"), object("{\"n\":4}")];
    assert_eq!(find_record(records.clone(), "a"), Some(object("{\"_id\":\"a\",\"n\":1}")));
    assert_eq!(find_record(records.clone(), "b"), Some(object("{\"_id\":\"b\",\"n\":2}")));
    assert_eq!(find_record(records.clone(), "7"), None);
    assert_eq!(find_record(records.clone(), ""), None);
    assert_eq!(find_record(Vec::new(), "a"), None);
}

#[test]
fn add_record_gives_the_generated_id_where_none_is_brought() {
    let (records, id) = add_record(vec![object("{\"_id\":\"a\"}")], object("{\"k\":\"v\"}"), "gen-1".to_string());
    assert_eq!(id, "gen-1");
    assert_eq!(records, vec![object("{\"_id\":\"a\"}"), object("{\"_id\":\"gen-1\",\"k\":\"v\"}")]);
}

#[test]
fn add_record_keeps_the_id_that_is_brought() {
    let (records, id) = add_record(Vec::new(), object("{\"_id\":\"custom\",\"k\":\"v\"}"), "gen-1".to_string());
    assert_eq!(id, "custom");
    assert_eq!(records, vec![object("{\"_id\":\"custom\",\"k\":\"v\"}")]);
}

#[test]
fn add_record_reports_nothing_for_an_id_that_is_no_text() {
    let (records, id) = add_record(Vec::new(), object("{\"_id\":12}"), "gen-1".to_string());
    assert_eq!(id, "");
    assert_eq!(records, vec![object("{\"_id\":12}")]);
    let (records, id) = add_record(Vec::new(), object("{\"_id\":null}"), "gen-1".to_string());
    assert_eq!(id, "");
    assert_eq!(records, vec![object("{\"_id\":null}")]);
}

#[test]
fn get_records_reads_the_file() {
    let m = server();
    assert_eq!(m.get_records(b"[]"), Ok(Vec::new()));
    assert_eq!(m.get_records(b"[{\"_id\":\"a\"},{\"k\":[1,{\"x\":null}]}]"), Ok(vec![object("{\"_id\":\"a\"}"), object("{\"k\":[1,{\"x\":null}]}")]));
    for stored in [&b""[..], b"{}", b"[1]", b"[null]", b"[{\"a\":1}", b"[{}] x"] {
        assert!(matches!(m.get_records(stored), Err(StoreError::Decode(_))), "{:?}", stored);
    }
}

#[test]
fn get_records_keeps_the_last_of_a_repeated_key() {
    let m = server();
    assert_eq!(m.get_records(b"[{\"k\":1,\"k\":2}]"), Ok(vec![object("{\"k\":2}")]));
}

#[test]
fn get_record_by_id_reads_then_finds() {
    let m = server();
    let stored = b"[{\"_id\":\"a\",\"n\":1},{\"_id\":\"b\"},{\"_id\":\"a\",\"n\":2}]";
    assert_eq!(m.get_record_by_id(stored, "a".to_string()), Ok(Some(object("{\"_id\":\"a\",\"n\":1}"))));
    assert_eq!(m.get_record_by_id(stored, "c".to_string()), Ok(None));
    assert!(matches!(m.get_record_by_id(b"[", "a".to_string()), Err(StoreError::Decode(_))));
}

#[test]
fn create_record_then_get_by_returned_id() {
    let m = server();
    let made = m.create_record(b"[{\"_id\":\"old\"}]", object("{\"k\":\"v\"}")).unwrap();
    assert!(looks_generated(&made.record_id));
    assert_eq!(made.records.len(), 2);
    assert_eq!(made.records[0], object("{\"_id\":\"old\"}"));
    let found = m.get_record_by_id(&made.file, made.record_id.clone()).unwrap().unwrap();
    assert_eq!(found.text("k"), Some("v".to_string()));
    assert_eq!(found.text("_id"), Some(made.record_id.clone()));
    assert_eq!(found.fields.len(), 2);
    assert_eq!(found, made.records[1]);
    assert_eq!(m.get_records(&made.file), Ok(made.records.clone()));
}

#[test]
fn create_record_persists_a_custom_id() {
    let m = server();
    let made = m.create_record(b"[]", object("{\"_id\":\"custom\"}")).unwrap();
    assert_eq!(made.record_id, "custom");
    assert_eq!(made.file, b"[{\"_id\":\"custom\"}]".to_vec());
    assert_eq!(made.records, vec![object("{\"_id\":\"custom\"}")]);
    assert_eq!(m.get_record_by_id(&made.file, "custom".to_string()), Ok(Some(object("{\"_id\":\"custom\"}"))));
}

#[test]
fn create_record_does_not_check_for_a_repeated_id() {
    let m = server();
    let made = m.create_record(b"[{\"_id\":\"x\",\"n\":1}]", object("{\"_id\":\"x\",\"n\":2}")).unwrap();
    assert_eq!(made.record_id, "x");
    assert_eq!(made.records.len(), 2);
    assert_eq!(m.get_record_by_id(&made.file, "x".to_string()), Ok(Some(object("{\"_id\":\"x\",\"n\":1}"))));
}

#[test]
fn create_record_on_a_broken_file_fails() {
    let m = server();
    assert!(matches!(m.create_record(b"{", object("{}")), Err(StoreError::Decode(_))));
}

#[test]
fn records_text_and_file_are_the_json_list() {
    let records = vec![object("{\"b\":1,\"a\":\"x\"}"), object("{}")];
    assert_eq!(records_text(&records), Ok("[{\"a\":\"x\",\"b\":1},{}]".to_string()));
    assert_eq!(encode_records(&records), Ok(b"[{\"a\":\"x\",\"b\":1},{}]".to_vec()));
    assert_eq!(records_text(&Vec::new()), Ok("[]".to_string()));
    assert_eq!(encode_records(&vec![object("{\"k\":\"\u{e9}\"}")]), Ok("[{\"k\":\"\u{e9}\"}]".as_bytes().to_vec()));
}

#[test]
fn found_text_writes_null_for_nothing() {
    assert_eq!(found_text(&None), Ok("null".to_string()));
    assert_eq!(found_text(&Some(object("{\"_id\":\"a\",\"n\":[1,2]}"))), Ok("{\"_id\":\"a\",\"n\":[1,2]}".to_string()));
}

#[test]
fn pretty_text_indents() {
    assert_eq!(pretty_text(&object("{\"_id\":\"a\",\"n\":[1]}")), Ok("{\n  \"_id\": \"a\",\n  \"n\": [\n    1\n  ]\n}".to_string()));
    assert_eq!(pretty_text(&object("{}")), Ok("{}".to_string()));
}

#[test]
fn records_round_trip() {
    let m = server();
    let records = vec![
        object("{\"_id\":\"a\",\"text\":\"caf\u{e9} \\\"q\\\" \\\\ \\n\",\"n\":-12,\"big\":18446744073709551615,\"x\":1.5e300,\"t\":true,\"z\":null}"),
        object("{\"nested\":{\"list\":[1,[2,[3,{\"deep\":{}}]]]}}"),
        object("{}"),
    ];
    let file = encode_records(&records).unwrap();
    assert_eq!(m.get_records(&file), Ok(records.clone()));
    assert_eq!(encode_records(&m.get_records(&file).unwrap()), Ok(file));
}

#[test]
fn store_error_messages() {
    assert_eq!(StoreError::Decode("d".to_string()).message(), "d");
    assert_eq!(StoreError::Encode("e".to_string()).message(), "e");
    assert_eq!(StoreError::IdentifierTaken.message(), "No unused identifier could be generated.");
}

#[test]
fn a_cloned_record_holds_the_same_entries() {
    let record = object("{\"_id\":\"a\",\"n\":[1,{\"k\":null}]}");
    let copy = record.clone();
    assert_eq!(copy, record);
    assert_eq!(copy.text("_id"), Some("a".to_string()));
    assert!(copy.contains_key("n"));
    assert_eq!(records_text(&vec![copy]), records_text(&vec![record]));
}

#[test]
fn an_identifier_is_unused_where_no_collection_has_it() {
    let listed = vec![collection("c1", "users"), collection("c2", "orders")];
    assert!(has_collection(&listed, "c1"));
    assert!(has_collection(&listed, "c2"));
    assert!(!has_collection(&listed, "c3"));
    assert!(!has_collection(&Vec::new(), "c1"));
    assert_eq!(unused_collection_id(&listed, "c1".to_string()), None);
    assert_eq!(unused_collection_id(&listed, "c3".to_string()), Some("c3".to_string()));
}

#[test]
fn an_identifier_is_unused_where_no_record_has_it() {
    let records = vec![object("{\"_id\":\"a\"}"), object("{\"_id\":7}"), object("{\"k\":\"b\"}")];
    assert!(has_record(&records, "a"));
    assert!(!has_record(&records, "7"));
    assert!(!has_record(&records, "b"));
    assert!(!has_record(&Vec::new(), "a"));
    assert_eq!(unused_record_id(&records, "a".to_string()), None);
    assert_eq!(unused_record_id(&records, "b".to_string()), Some("b".to_string()));
}

#[test]
fn created_identifiers_are_new_to_the_store() {
    let m = server();
    assert_eq!(FRESH_ID_ATTEMPTS, 8);
    let mut registry = b"[]".to_vec();
    let mut file = b"[]".to_vec();
    for _ in 0..20 {
        let before = m.list_collections(&registry).unwrap();
        let made = m.create_collection(&registry, "n".to_string()).unwrap();
        assert!(!has_collection(&before, &made.collection_id));
        registry = made.registry_file;
        let earlier = m.get_records(&file).unwrap();
        let kept = m.create_record(&file, object("{\"k\":\"v\"}")).unwrap();
        assert!(!has_record(&earlier, &kept.record_id));
        file = kept.file;
    }
}
