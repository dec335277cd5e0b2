use molecule::auth::AuthError;
use molecule::dispatch::Executed;
use molecule::dispatch::Outcome;
use molecule::dispatch::Query;
use molecule::dispatch::Step;
use molecule::dispatch::StoreWrite;
use molecule::dispatch::begin;
use molecule::dispatch::handle;
use molecule::molecule::Molecule;
use molecule::proto::AuthInfo;
use molecule::proto::DatabaseInputType;
use molecule::proto::DatabaseOutputError;
use molecule::proto::DatabaseOutputMsg;
use molecule::proto::HandShakeInputMsg;
use molecule::proto::HandShakeOutputError;
use molecule::proto::HandShakeOutputMsg;
use molecule::proto::InputSource;
use molecule::proto::Keyword;
use molecule::proto::ParseError;
use molecule::store::collection::Collection;
use molecule::store::id::looks_generated;
use molecule::store::record::Record;
use molecule::store::error::StoreError;
use molecule::cli::MoleculeCliApi;
use molecule::tcp::Connection;
use molecule::tcp::MoleculeTcpApi;
use molecule::tcp::Reaction;
use molecule::tcp::handshake_reply;
use molecule::tcp::rejection;
use molecule::tcp::respond;

const REGISTRY_PATH: &str = ".molecule/data/map.json";

fn open_server() -> Molecule {
    Molecule::new("0.0.0.0".to_string(), 80)
}

fn guarded_server() -> Molecule {
    let mut m = open_server();
    m.active_user = Some(AuthInfo { username: "admin".to_string(), password: bcrypt::hash("secret", 4).unwrap() });
    m
}

fn object(text: &str) -> Record {
    Record { fields: serde_json::from_str::<serde_json::Map<String, serde_json::Value>>(text).unwrap() }
}

fn command(m: &Molecule, line: &str) -> Step {
    match m.handle_client(Connection::AwaitingCommand, line.to_string()) {
        Ok((Connection::Closed, Reaction::Run(step))) => step,
        other => panic!("{:?} gave {:?}", line, other),
    }
}

fn rejected(code: HandShakeOutputError) -> Result<HandShakeOutputMsg, AuthError> {
    Ok(HandShakeOutputMsg::Error(code))
}

#[test]
fn hello_without_credentials_is_ready_when_none_are_active() {
    let m = open_server();
    assert_eq!(m.handshake("OK"), Ok(HandShakeOutputMsg::Ready));
    assert_eq!(m.handshake("OK\n"), Ok(HandShakeOutputMsg::Ready));
    assert_eq!(m.handshake("  OK  "), Ok(HandShakeOutputMsg::Ready));
}

#[test]
fn hello_without_credentials_is_ready_when_some_are_active() {
    assert_eq!(guarded_server().handshake("OK"), Ok(HandShakeOutputMsg::Ready));
}

#[test]
fn empty_hello_is_malformed() {
    let m = open_server();
    assert_eq!(m.handshake(""), rejected(HandShakeOutputError::MalformedRequest));
    assert_eq!(m.handshake(" \r\n"), rejected(HandShakeOutputError::MalformedRequest));
}

#[test]
fn unknown_keyword_is_an_invalid_message() {
    let m = guarded_server();
    assert_eq!(m.handshake("HELLO"), rejected(HandShakeOutputError::InvalidHandShakeMsg));
    assert_eq!(m.handshake("ok"), rejected(HandShakeOutputError::InvalidHandShakeMsg));
    assert_eq!(m.handshake("OKAY admin:secret"), rejected(HandShakeOutputError::InvalidHandShakeMsg));
    assert_eq!(m.handshake("admin:secret OK"), rejected(HandShakeOutputError::InvalidHandShakeMsg));
}

#[test]
fn credentials_without_colon_are_malformed() {
    let m = guarded_server();
    assert_eq!(m.handshake("OK adminsecret"), rejected(HandShakeOutputError::MalformedAuthStr));
    assert_eq!(m.handshake("OK admin secret"), rejected(HandShakeOutputError::MalformedAuthStr));
}

#[test]
fn valid_credentials_are_ready() {
    let m = guarded_server();
    assert_eq!(m.handshake("OK admin:secret"), Ok(HandShakeOutputMsg::Ready));
    assert_eq!(m.handshake("OK admin:secret surplus"), Ok(HandShakeOutputMsg::Ready));
}

#[test]
fn invalid_credentials_are_incorrect() {
    let m = guarded_server();
    assert_eq!(m.handshake("OK admin:wrong"), rejected(HandShakeOutputError::IncorrectAuthInfo));
    assert_eq!(m.handshake("OK root:secret"), rejected(HandShakeOutputError::IncorrectAuthInfo));
    assert_eq!(m.handshake("OK admin:"), rejected(HandShakeOutputError::IncorrectAuthInfo));
    assert_eq!(m.handshake("OK :secret"), rejected(HandShakeOutputError::IncorrectAuthInfo));
    assert_eq!(m.handshake("OK admin:secret:more"), rejected(HandShakeOutputError::IncorrectAuthInfo));
}

#[test]
fn credentials_are_incorrect_when_none_are_active() {
    let m = open_server();
    assert_eq!(m.handshake("OK admin:secret"), rejected(HandShakeOutputError::IncorrectAuthInfo));
}

#[test]
fn password_with_colon_splits_at_the_first() {
    let mut m = open_server();
    m.active_user = Some(AuthInfo { username: "admin".to_string(), password: bcrypt::hash("se:cret", 4).unwrap() });
    assert_eq!(m.handshake("OK admin:se:cret"), Ok(HandShakeOutputMsg::Ready));
}

#[test]
fn handshake_fails_where_the_hash_cannot_be_checked() {
    let mut m = open_server();
    m.active_user = Some(AuthInfo { username: "admin".to_string(), password: "garbage".to_string() });
    assert!(matches!(m.handshake("OK admin:secret"), Err(AuthError::Verify(_))));
    assert_eq!(m.handshake("OK root:secret"), rejected(HandShakeOutputError::IncorrectAuthInfo));
    assert_eq!(m.handshake("OK"), Ok(HandShakeOutputMsg::Ready));
}

#[test]
fn handshake_reply_for_each_check() {
    assert_eq!(handshake_reply(HandShakeInputMsg::Okay, None), HandShakeOutputMsg::Ready);
    assert_eq!(handshake_reply(HandShakeInputMsg::Okay, Some(true)), HandShakeOutputMsg::Ready);
    assert_eq!(handshake_reply(HandShakeInputMsg::Okay, Some(false)), HandShakeOutputMsg::Error(HandShakeOutputError::IncorrectAuthInfo));
}

#[test]
fn rejection_codes() {
    assert_eq!(rejection(&ParseError::NotAvailable(InputSource::Tcp)), DatabaseOutputError::CmdNotAvailable);
    assert_eq!(rejection(&ParseError::MissingArgument(Keyword::RecGet)), DatabaseOutputError::InvalidInput);
    assert_eq!(rejection(&ParseError::InvalidBody("x".to_string())), DatabaseOutputError::InvalidInput);
    assert_eq!(rejection(&ParseError::Unsupported(InputSource::Tcp, "x".to_string())), DatabaseOutputError::InvalidInput);
}

#[test]
fn stop_over_the_socket_is_not_available() {
    let m = open_server();
    let step = command(&m, "STOP");
    assert_eq!(step, Step::Done(Outcome::Rejected(ParseError::NotAvailable(InputSource::Tcp))));
    let Step::Done(outcome) = step else { panic!("not done") };
    let response = respond(outcome).unwrap();
    assert_eq!(response, DatabaseOutputMsg::Error(DatabaseOutputError::CmdNotAvailable));
    assert_eq!(response.to_bytes(), b"ERR cmd_not_available\n".to_vec());
}

#[test]
fn a_stop_request_is_answered_not_available() {
    assert_eq!(respond(Outcome::Stop), Ok(DatabaseOutputMsg::Error(DatabaseOutputError::CmdNotAvailable)));
}

#[test]
fn stop_from_the_shell_stops() {
    let m = open_server();
    assert_eq!(m.handle_line("STOP".to_string()), Step::Done(Outcome::Stop));
}

#[test]
fn invalid_lines_are_answered_invalid_input() {
    let m = open_server();
    for line in ["DROP x", "COLLECTION", "REC_GET c1", "REC_CREATE c1 nope", "REC_CREATE", "STOP it"] {
        let Step::Done(outcome) = command(&m, line) else { panic!("{:?} reads", line) };
        assert!(matches!(outcome, Outcome::Rejected(_)));
        let response = respond(outcome).unwrap();
        assert_eq!(response, DatabaseOutputMsg::Error(DatabaseOutputError::InvalidInput));
        assert_eq!(response.to_bytes(), b"ERR invalid_input\n".to_vec());
    }
}

#[test]
fn empty_line_is_answered_with_nothing() {
    let m = open_server();
    assert_eq!(command(&m, ""), Step::Done(Outcome::Nothing));
    assert_eq!(respond(Outcome::Nothing), Ok(DatabaseOutputMsg::Noop));
    assert_eq!(respond(Outcome::Nothing).unwrap().to_bytes(), Vec::<u8>::new());
}

#[test]
fn delete_requests_are_not_available() {
    let m = open_server();
    assert_eq!(command(&m, "CLN_DELETE c1"), Step::Done(Outcome::Unavailable));
    assert_eq!(command(&m, "REC_DELETE c1 r1"), Step::Done(Outcome::Unavailable));
    assert_eq!(m.handle_line("CLN_DELETE c1".to_string()), Step::Done(Outcome::Unavailable));
    assert_eq!(respond(Outcome::Unavailable), Ok(DatabaseOutputMsg::Error(DatabaseOutputError::CmdNotAvailable)));
}

#[test]
fn first_steps_name_the_file_to_read() {
    assert_eq!(begin(DatabaseInputType::Stop), Step::Done(Outcome::Stop));
    assert_eq!(begin(DatabaseInputType::Noop), Step::Done(Outcome::Nothing));
    assert_eq!(begin(DatabaseInputType::CollectionsList), Step::Read(REGISTRY_PATH.to_string(), Query::ListCollections));
    assert_eq!(begin(DatabaseInputType::Collection("c1".to_string())), Step::Read(REGISTRY_PATH.to_string(), Query::CollectionName("c1".to_string())));
    assert_eq!(begin(DatabaseInputType::CreateCollection("users".to_string())), Step::Read(REGISTRY_PATH.to_string(), Query::CreateCollection("users".to_string())));
    assert_eq!(begin(DatabaseInputType::CollectionRecords("c1".to_string())), Step::Read(".molecule/data/collections/c1.json".to_string(), Query::ListRecords));
    assert_eq!(
        begin(DatabaseInputType::IdRecord("c1".to_string(), "r1".to_string())),
        Step::Read(".molecule/data/collections/c1.json".to_string(), Query::FindRecord("r1".to_string()))
    );
    assert_eq!(
        begin(DatabaseInputType::CreateRecord("c1".to_string(), object("{\"k\":1}"))),
        Step::Read(".molecule/data/collections/c1.json".to_string(), Query::CreateRecord(".molecule/data/collections/c1.json".to_string(), object("{\"k\":1}")))
    );
    assert_eq!(begin(DatabaseInputType::DeleteCollection("c1".to_string())), Step::Done(Outcome::Unavailable));
    assert_eq!(begin(DatabaseInputType::DeleteRecord("c1".to_string(), "r1".to_string())), Step::Done(Outcome::Unavailable));
}

#[test]
fn handle_reads_then_begins() {
    assert_eq!(handle("CLN_GET c7".to_string(), InputSource::Tcp), Step::Read(".molecule/data/collections/c7.json".to_string(), Query::ListRecords));
    assert_eq!(handle("COLLECTIONS_LIST".to_string(), InputSource::Cli), Step::Read(REGISTRY_PATH.to_string(), Query::ListCollections));
    assert_eq!(handle("CLN_GET".to_string(), InputSource::Cli), Step::Done(Outcome::Rejected(ParseError::MissingArgument(Keyword::ClnGet))));
}

#[test]
fn listing_collections_over_the_socket() {
    let m = open_server();
    let stored = b"[{\"name\":\"users\",\"collection_id\":\"c1\",\"extra\":true}]";
    let done = m.answer(Query::ListCollections, stored).unwrap();
    assert_eq!(done, Executed { outcome: Outcome::Collections(vec![Collection { collection_id: "c1".to_string(), name: "users".to_string() }]), writes: Vec::new() });
    assert_eq!(respond(done.outcome), Ok(DatabaseOutputMsg::Collections("[{\"collection_id\":\"c1\",\"name\":\"users\"}]".to_string())));
}

#[test]
fn collection_name_over_the_socket() {
    let m = open_server();
    let stored = b"[{\"collection_id\":\"c1\",\"name\":\"users\"}]";
    let done = m.answer(Query::CollectionName("c1".to_string()), stored).unwrap();
    assert_eq!(done, Executed { outcome: Outcome::CollectionName(Some("users".to_string())), writes: Vec::new() });
    assert_eq!(respond(done.outcome), Ok(DatabaseOutputMsg::Collection("users".to_string())));
    let done = m.answer(Query::CollectionName("c2".to_string()), stored).unwrap();
    assert_eq!(done, Executed { outcome: Outcome::CollectionName(None), writes: Vec::new() });
    assert_eq!(respond(done.outcome), Ok(DatabaseOutputMsg::Collection("null".to_string())));
}

#[test]
fn creating_a_collection_over_the_socket() {
    let m = open_server();
    let done = m.answer(Query::CreateCollection("orders".to_string()), b"[]").unwrap();
    let Outcome::CreatedCollection(id) = done.outcome.clone() else { panic!("{:?}", done.outcome) };
    assert!(looks_generated(&id));
    assert_eq!(
        done.writes,
        vec![
            StoreWrite { path: format!(".molecule/data/collections/{}.json", id), contents: b"[]".to_vec() },
            StoreWrite { path: REGISTRY_PATH.to_string(), contents: format!("[{{\"collection_id\":\"{}\",\"name\":\"orders\"}}]", id).into_bytes() },
        ]
    );
    assert_eq!(respond(done.outcome), Ok(DatabaseOutputMsg::CreatedCollection(id)));
}

#[test]
fn listing_records_over_the_socket() {
    let m = open_server();
    let done = m.answer(Query::ListRecords, b"[ {\"_id\": \"a\", \"k\": \"v\"} ]").unwrap();
    assert_eq!(done, Executed { outcome: Outcome::Records(vec![object("{\"_id\":\"a\",\"k\":\"v\"}")]), writes: Vec::new() });
    assert_eq!(respond(done.outcome), Ok(DatabaseOutputMsg::Records("[{\"_id\":\"a\",\"k\":\"v\"}]".to_string())));
}

#[test]
fn finding_a_record_over_the_socket() {
    let m = open_server();
    let stored = b"[{\"_id\":\"a\",\"k\":\"v\"}]";
    let done = m.answer(Query::FindRecord("a".to_string()), stored).unwrap();
    assert_eq!(done, Executed { outcome: Outcome::FoundRecord(Some(object("{\"_id\":\"a\",\"k\":\"v\"}"))), writes: Vec::new() });
    assert_eq!(respond(done.outcome), Ok(DatabaseOutputMsg::Records("{\"_id\":\"a\",\"k\":\"v\"}".to_string())));
    let done = m.answer(Query::FindRecord("b".to_string()), stored).unwrap();
    assert_eq!(done, Executed { outcome: Outcome::FoundRecord(None), writes: Vec::new() });
    assert_eq!(respond(done.outcome), Ok(DatabaseOutputMsg::Records("null".to_string())));
}

#[test]
fn creating_a_record_over_the_socket() {
    let m = open_server();
    let Step::Read(path, query) = command(&m, "REC_CREATE c1 {\"_id\":\"custom\"}") else { panic!("done") };
    assert_eq!(path, ".molecule/data/collections/c1.json");
    let done = m.answer(query, b"[{\"_id\":\"old\"}]").unwrap();
    assert_eq!(
        done,
        Executed {
            outcome: Outcome::CreatedRecord("custom".to_string()),
            writes: vec![StoreWrite { path: ".molecule/data/collections/c1.json".to_string(), contents: b"[{\"_id\":\"old\"},{\"_id\":\"custom\"}]".to_vec() }],
        }
    );
    assert_eq!(respond(done.outcome).unwrap().to_bytes(), b"custom".to_vec());
}

#[test]
fn creating_a_record_without_id_over_the_socket() {
    let m = open_server();
    let Step::Read(_, query) = command(&m, "REC_CREATE c1 {\"k\":\"v\"}") else { panic!("done") };
    let done = m.answer(query, b"[]").unwrap();
    let Outcome::CreatedRecord(id) = done.outcome.clone() else { panic!("{:?}", done.outcome) };
    assert!(looks_generated(&id));
    assert_eq!(done.writes.len(), 1);
    assert_eq!(done.writes[0].contents, format!("[{{\"_id\":\"{}\",\"k\":\"v\"}}]", id).into_bytes());
    let found = m.answer(Query::FindRecord(id.clone()), &done.writes[0].contents).unwrap();
    assert_eq!(found.outcome, Outcome::FoundRecord(Some(object(&format!("{{\"k\":\"v\",\"_id\":\"{}\"}}", id)))));
}

#[test]
fn a_broken_file_fails_every_query() {
    let m = open_server();
    let queries = vec![
        Query::ListCollections,
        Query::CollectionName("c".to_string()),
        Query::CreateCollection("n".to_string()),
        Query::ListRecords,
        Query::FindRecord("r".to_string()),
        Query::CreateRecord("p".to_string(), object("{}")),
    ];
    for query in queries {
        assert!(matches!(m.answer(query.clone(), b"broken"), Err(StoreError::Decode(_))), "{:?}", query);
    }
}

#[test]
fn created_identifiers_go_out_as_they_are() {
    assert_eq!(respond(Outcome::CreatedCollection("c-9".to_string())), Ok(DatabaseOutputMsg::CreatedCollection("c-9".to_string())));
    assert_eq!(respond(Outcome::CreatedRecord("r-9".to_string())), Ok(DatabaseOutputMsg::CreatedRecord("r-9".to_string())));
}

#[test]
fn a_new_connection_is_greeted() {
    assert_eq!(Connection::open(), (Connection::AwaitingHello, HandShakeOutputMsg::InitConn));
    assert_eq!(Connection::open().1.as_bytes(), b"INITCONN\n");
}

#[test]
fn a_ready_connection_awaits_its_command() {
    let m = guarded_server();
    assert_eq!(
        m.handle_client(Connection::AwaitingHello, "OK admin:secret".to_string()),
        Ok((Connection::AwaitingCommand, Reaction::Reply(HandShakeOutputMsg::Ready)))
    );
    assert_eq!(
        m.handle_client(Connection::AwaitingHello, "OK".to_string()),
        Ok((Connection::AwaitingCommand, Reaction::Reply(HandShakeOutputMsg::Ready)))
    );
}

#[test]
fn a_rejected_connection_is_closed() {
    let m = guarded_server();
    for (hello, code) in [
        ("", HandShakeOutputError::MalformedRequest),
        ("HELLO", HandShakeOutputError::InvalidHandShakeMsg),
        ("OK nocolon", HandShakeOutputError::MalformedAuthStr),
        ("OK admin:wrong", HandShakeOutputError::IncorrectAuthInfo),
    ] {
        assert_eq!(
            m.handle_client(Connection::AwaitingHello, hello.to_string()),
            Ok((Connection::Closed, Reaction::Reply(HandShakeOutputMsg::Error(code))))
        );
    }
    assert_eq!(
        m.handle_client(Connection::Closed, "COLLECTIONS_LIST".to_string()),
        Ok((Connection::Closed, Reaction::Nothing))
    );
}

#[test]
fn a_connection_serves_one_command() {
    let m = open_server();
    assert_eq!(
        m.handle_client(Connection::AwaitingCommand, "COLLECTIONS_LIST".to_string()),
        Ok((Connection::Closed, Reaction::Run(Step::Read(REGISTRY_PATH.to_string(), Query::ListCollections))))
    );
    assert_eq!(m.handle_client(Connection::Closed, "COLLECTIONS_LIST".to_string()), Ok((Connection::Closed, Reaction::Nothing)));
}

#[test]
fn a_hello_that_cannot_be_checked_fails() {
    let mut m = open_server();
    m.active_user = Some(AuthInfo { username: "admin".to_string(), password: "garbage".to_string() });
    assert!(matches!(m.handle_client(Connection::AwaitingHello, "OK admin:secret".to_string()), Err(AuthError::Verify(_))));
}

#[test]
fn handshake_messages_admit_only_when_ready() {
    assert!(HandShakeOutputMsg::Ready.admits());
    assert!(!HandShakeOutputMsg::InitConn.admits());
    assert!(!HandShakeOutputMsg::Error(HandShakeOutputError::IncorrectAuthInfo).admits());
}

#[test]
fn stop_with_a_line_end_over_the_socket_is_not_available() {
    let m = open_server();
    for line in ["STOP\n", "STOP\r\n", "  STOP  ", "\tSTOP"] {
        let step = command(&m, line);
        assert_eq!(step, Step::Done(Outcome::Rejected(ParseError::NotAvailable(InputSource::Tcp))), "{:?}", line);
        let Step::Done(outcome) = step else { panic!("not done") };
        assert_eq!(respond(outcome).unwrap().to_bytes(), b"ERR cmd_not_available\n".to_vec());
    }
}

#[test]
fn stop_after_a_ready_handshake_is_answered_with_the_error_line() {
    let m = guarded_server();
    let (state, greeting) = Connection::open();
    assert_eq!(greeting.as_bytes(), b"INITCONN\n");
    let (state, reaction) = m.handle_client(state, "OK admin:secret\n".to_string()).unwrap();
    assert_eq!(reaction, Reaction::Reply(HandShakeOutputMsg::Ready));
    assert_eq!(HandShakeOutputMsg::Ready.as_bytes(), b"READY\n");
    let (state, reaction) = m.handle_client(state, "STOP\n".to_string()).unwrap();
    assert_eq!(state, Connection::Closed);
    let Reaction::Run(Step::Done(outcome)) = reaction else { panic!("{:?}", reaction) };
    assert_ne!(outcome, Outcome::Stop);
    assert_eq!(respond(outcome).unwrap().to_bytes(), b"ERR cmd_not_available\n".to_vec());
}

#[test]
fn received_lines_are_trimmed() {
    let m = open_server();
    assert_eq!(command(&m, "  CLN_GET c7 \r\n"), Step::Read(".molecule/data/collections/c7.json".to_string(), Query::ListRecords));
    assert_eq!(command(&m, "\n"), Step::Done(Outcome::Nothing));
    assert_eq!(
        command(&m, " DROP  x \n"),
        Step::Done(Outcome::Rejected(ParseError::Unsupported(InputSource::Tcp, "DROP  x".to_string())))
    );
    assert_eq!(m.handle_line("STOP\n".to_string()), Step::Done(Outcome::Stop));
    assert_eq!(
        m.handle_line("\u{3000}STOP it\u{a0}".to_string()),
        Step::Done(Outcome::Rejected(ParseError::Unsupported(InputSource::Cli, "STOP it".to_string())))
    );
}

#[test]
fn a_record_that_is_not_found_goes_out_as_null() {
    assert_eq!(respond(Outcome::FoundRecord(None)).unwrap().to_bytes(), b"null".to_vec());
}
