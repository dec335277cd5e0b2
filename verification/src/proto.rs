//! The wire protocol: the messages of the handshake, the requests that a
//! command line stands for, and the responses, each with its text.

use vstd::prelude::*;
use vstd::string::StringExecFns;
use vstd::string::StrSliceExecFns;
use crate::json::Json;
use crate::json::parse_object;
use crate::json::parsed_object;
use crate::store::record::Record;
use crate::text::join_from;
use crate::text::joined;
use crate::text::split_whitespace;
use crate::text::str_eq;
use crate::text::words;

verus! {

/// A user name with the salted hash of its password.
#[derive(Debug, Clone, PartialEq, Eq)]
pub struct AuthInfo {
    pub username: String,
    pub password: String,
}

/// Credentials as a mathematical value.
pub struct Credentials {
    pub username: Seq<char>,
    pub password: Seq<char>,
}

impl View for AuthInfo {
    type V = Credentials;

    open spec fn view(&self) -> Credentials {
        Credentials { username: self.username@, password: self.password@ }
    }
}

/// What a command line asks for.
#[derive(Debug, Clone, PartialEq, Eq)]
pub enum DatabaseInputType {
    /// Shut the server down.
    Stop,
    /// Do nothing: the line was empty.
    Noop,
    /// List all collections.
    CollectionsList,
    /// The name of the collection with this identifier.
    Collection(String),
    /// The records of the collection with this identifier.
    CollectionRecords(String),
    /// The record of a collection (first field) with this identifier (second
    /// field).
    IdRecord(String, String),
    /// Create a collection with this name.
    CreateCollection(String),
    /// Create a record with these contents in the collection with this
    /// identifier.
    CreateRecord(String, Record),
    /// Delete the collection with this identifier.
    DeleteCollection(String),
    /// Delete the record of a collection (first field) with this identifier
    /// (second field).
    DeleteRecord(String, String),
}

/// A request as a mathematical value.
pub enum Request {
    Stop,
    Noop,
    CollectionsList,
    Collection(Seq<char>),
    CollectionRecords(Seq<char>),
    IdRecord(Seq<char>, Seq<char>),
    CreateCollection(Seq<char>),
    CreateRecord(Seq<char>, Map<Seq<char>, Json>),
    DeleteCollection(Seq<char>),
    DeleteRecord(Seq<char>, Seq<char>),
}

impl View for DatabaseInputType {
    type V = Request;

    open spec fn view(&self) -> Request {
        match self {
            DatabaseInputType::Stop => Request::Stop,
            DatabaseInputType::Noop => Request::Noop,
            DatabaseInputType::CollectionsList => Request::CollectionsList,
            DatabaseInputType::Collection(id) => Request::Collection(id@),
            DatabaseInputType::CollectionRecords(id) => Request::CollectionRecords(id@),
            DatabaseInputType::IdRecord(id, record_id) => Request::IdRecord(id@, record_id@),
            DatabaseInputType::CreateCollection(name) => Request::CreateCollection(name@),
            DatabaseInputType::CreateRecord(id, contents) => Request::CreateRecord(id@, contents@),
            DatabaseInputType::DeleteCollection(id) => Request::DeleteCollection(id@),
            DatabaseInputType::DeleteRecord(id, record_id) => Request::DeleteRecord(
                id@,
                record_id@,
            ),
        }
    }
}

/// The keywords that take arguments.
#[derive(Debug, Clone, Copy, PartialEq, Eq, Hash, Structural)]
pub enum Keyword {
    Collection,
    ClnGet,
    RecGet,
    ClnCreate,
    RecCreate,
    ClnDelete,
    RecDelete,
}

/// Why a command line stands for no request.
#[derive(Debug, Clone, PartialEq, Eq)]
pub enum ParseError {
    /// The keyword came without all of its arguments.
    MissingArgument(Keyword),
    /// The body of `REC_CREATE` is not the text of a JSON object; the field
    /// holds what `serde_json` says of it.
    InvalidBody(String),
    /// The line starts with no known keyword; the fields hold the source
    /// and the whole line.
    Unsupported(InputSource, String),
    /// The stop keyword came from a source that may not stop the server.
    NotAvailable(InputSource),
}

/// A parse failure as a mathematical value.
pub enum ParseFailure {
    MissingArgument(Keyword),
    InvalidBody(Seq<char>),
    Unsupported(InputSource, Seq<char>),
    NotAvailable(InputSource),
}

impl View for ParseError {
    type V = ParseFailure;

    open spec fn view(&self) -> ParseFailure {
        match self {
            ParseError::MissingArgument(keyword) => ParseFailure::MissingArgument(*keyword),
            ParseError::InvalidBody(said) => ParseFailure::InvalidBody(said@),
            ParseError::Unsupported(source, line) => ParseFailure::Unsupported(*source, line@),
            ParseError::NotAvailable(source) => ParseFailure::NotAvailable(*source),
        }
    }
}

impl Keyword {
    /// The keyword as it is written on a command line.
    pub open spec fn text(self) -> Seq<char> {
        match self {
            Keyword::Collection => "COLLECTION"@,
            Keyword::ClnGet => "CLN_GET"@,
            Keyword::RecGet => "REC_GET"@,
            Keyword::ClnCreate => "CLN_CREATE"@,
            Keyword::RecCreate => "REC_CREATE"@,
            Keyword::ClnDelete => "CLN_DELETE"@,
            Keyword::RecDelete => "REC_DELETE"@,
        }
    }

    /// The names of the arguments that the keyword takes.
    pub open spec fn arguments(self) -> Seq<char> {
        match self {
            Keyword::Collection => "collection_id"@,
            Keyword::ClnGet => "collection_id"@,
            Keyword::RecGet => "collection_id, record_id"@,
            Keyword::ClnCreate => "name"@,
            Keyword::RecCreate => "collection_id, contents"@,
            Keyword::ClnDelete => "collection_id"@,
            Keyword::RecDelete => "collection_id, record_id"@,
        }
    }

    /// The keyword as it is written on a command line.
    pub fn as_str(&self) -> (word: &'static str)
        ensures
            word@ == self.text(),
    {
        match self {
            Keyword::Collection => "COLLECTION",
            Keyword::ClnGet => "CLN_GET",
            Keyword::RecGet => "REC_GET",
            Keyword::ClnCreate => "CLN_CREATE",
            Keyword::RecCreate => "REC_CREATE",
            Keyword::ClnDelete => "CLN_DELETE",
            Keyword::RecDelete => "REC_DELETE",
        }
    }

    /// The names of the arguments that the keyword takes.
    pub fn argument_names(&self) -> (names: &'static str)
        ensures
            names@ == self.arguments(),
    {
        match self {
            Keyword::Collection => "collection_id",
            Keyword::ClnGet => "collection_id",
            Keyword::RecGet => "collection_id, record_id",
            Keyword::ClnCreate => "name",
            Keyword::RecCreate => "collection_id, contents",
            Keyword::ClnDelete => "collection_id",
            Keyword::RecDelete => "collection_id, record_id",
        }
    }
}

impl ParseError {
    /// The message for the user: which keyword lacks which arguments, what
    /// `serde_json` says of the body, which line from which source is not
    /// supported, or from which source the stop keyword is not available.
    pub open spec fn message_text(self) -> Seq<char> {
        match self {
            ParseError::MissingArgument(keyword) => "Input type "@ + keyword.text()
                + " is missing required argument for "@ + keyword.arguments() + "."@,
            ParseError::InvalidBody(said) => said@,
            ParseError::Unsupported(source, line) => "Invalid or unsupported input type for "@
                + source.text() + ": "@ + line@,
            ParseError::NotAvailable(source) => "Input type STOP is not available for "@
                + source.text() + "."@,
        }
    }

    /// The message for the user.
    pub fn message(&self) -> (text: String)
        ensures
            text@ == self.message_text(),
    {
        match self {
            ParseError::MissingArgument(keyword) => {
                let mut text = String::from_str("Input type ");
                text.append(keyword.as_str());
                text.append(" is missing required argument for ");
                text.append(keyword.argument_names());
                text.append(".");
                text
            },
            ParseError::InvalidBody(said) => said.clone(),
            ParseError::Unsupported(source, line) => {
                let mut text = String::from_str("Invalid or unsupported input type for ");
                text.append(source.as_str());
                text.append(": ");
                text.append(line.as_str());
                text
            },
            ParseError::NotAvailable(source) => {
                let mut text = String::from_str("Input type STOP is not available for ");
                text.append(source.as_str());
                text.append(".");
                text
            },
        }
    }
}

/// Why a response carries no payload.
#[derive(Debug, Clone, Copy, PartialEq, Eq, Hash, Structural)]
pub enum DatabaseOutputError {
    InvalidInput,
    CmdNotAvailable,
}

/// What the server answers to a request.
#[derive(Debug, Clone, PartialEq, Eq, Hash)]
pub enum DatabaseOutputMsg {
    Noop,
    Error(DatabaseOutputError),
    /// The collections, as JSON text.
    Collections(String),
    /// The name of a collection.
    Collection(String),
    /// Records, as JSON text.
    Records(String),
    /// The identifier of the collection that was created.
    CreatedCollection(String),
    /// The identifier of the record that was created.
    CreatedRecord(String),
    /// The identifier of the collection that was deleted.
    DeletedCollection(String),
    /// The identifier of the record that was deleted.
    DeletedRecord(String),
}

/// A response as a mathematical value.
pub enum Response {
    Noop,
    Error(DatabaseOutputError),
    Collections(Seq<char>),
    Collection(Seq<char>),
    Records(Seq<char>),
    CreatedCollection(Seq<char>),
    CreatedRecord(Seq<char>),
    DeletedCollection(Seq<char>),
    DeletedRecord(Seq<char>),
}

impl View for DatabaseOutputMsg {
    type V = Response;

    open spec fn view(&self) -> Response {
        match self {
            DatabaseOutputMsg::Noop => Response::Noop,
            DatabaseOutputMsg::Error(err) => Response::Error(*err),
            DatabaseOutputMsg::Collections(json) => Response::Collections(json@),
            DatabaseOutputMsg::Collection(name) => Response::Collection(name@),
            DatabaseOutputMsg::Records(json) => Response::Records(json@),
            DatabaseOutputMsg::CreatedCollection(id) => Response::CreatedCollection(id@),
            DatabaseOutputMsg::CreatedRecord(id) => Response::CreatedRecord(id@),
            DatabaseOutputMsg::DeletedCollection(id) => Response::DeletedCollection(id@),
            DatabaseOutputMsg::DeletedRecord(id) => Response::DeletedRecord(id@),
        }
    }
}

impl Response {
    /// The text of the response: nothing for `Noop`, the error's line, or the
    /// payload as it stands.
    pub open spec fn text(self) -> Seq<char> {
        match self {
            Response::Noop => Seq::empty(),
            Response::Error(err) => err.text(),
            Response::Collections(json) => json,
            Response::Collection(name) => name,
            Response::Records(json) => json,
            Response::CreatedCollection(id) => id,
            Response::CreatedRecord(id) => id,
            Response::DeletedCollection(id) => id,
            Response::DeletedRecord(id) => id,
        }
    }
}

/// The keywords that a client may open the handshake with.
#[derive(Debug, Clone, Copy, PartialEq, Eq, Hash, Structural)]
pub enum HandShakeInputMsg {
    /// The keyword `OK`.
    Okay,
}

/// Why a handshake was rejected.
#[derive(Debug, Clone, Copy, PartialEq, Eq, Hash, Structural)]
pub enum HandShakeOutputError {
    InvalidHandShake,
    InvalidHandShakeMsg,
    MalformedAuthStr,
    MalformedRequest,
    IncorrectAuthInfo,
}

/// What the server sends during the handshake.
#[derive(Debug, Clone, Copy, PartialEq, Eq, Hash, Structural)]
pub enum HandShakeOutputMsg {
    InitConn,
    Error(HandShakeOutputError),
    Ready,
}

/// Where a command line came from.
#[derive(Debug, Clone, Copy, PartialEq, Eq, Hash, Structural)]
pub enum InputSource {
    Cli,
    Tcp,
}

impl HandShakeInputMsg {
    /// The keyword that a word spells, if any.
    pub open spec fn spelled_by(word: Seq<char>) -> Option<HandShakeInputMsg> {
        if word == "OK"@ {
            Some(HandShakeInputMsg::Okay)
        } else {
            None
        }
    }
}

impl<'a> TryFrom<&'a str> for HandShakeInputMsg {
    type Error = HandShakeOutputError;

    /// Reads a handshake keyword; any word but `OK` is an
    /// `InvalidHandShakeMsg`.
    fn try_from(value: &'a str) -> (parsed: Result<Self, Self::Error>) {
        if str_eq(value, "OK") {
            Ok(HandShakeInputMsg::Okay)
        } else {
            Err(HandShakeOutputError::InvalidHandShakeMsg)
        }
    }
}

impl<'a> vstd::std_specs::convert::TryFromSpecImpl<&'a str> for HandShakeInputMsg {
    open spec fn obeys_try_from_spec() -> bool {
        true
    }

    open spec fn try_from_spec(value: &'a str) -> Result<Self, Self::Error> {
        match HandShakeInputMsg::spelled_by(value@) {
            Some(msg) => Ok(msg),
            None => Err(HandShakeOutputError::InvalidHandShakeMsg),
        }
    }
}

impl HandShakeOutputError {
    /// The line that reports this error to the client.
    pub open spec fn text(self) -> Seq<char> {
        match self {
            HandShakeOutputError::InvalidHandShake => "ERR invalid_handshake\n"@,
            HandShakeOutputError::InvalidHandShakeMsg => "ERR invalid_handshake_msg\n"@,
            HandShakeOutputError::MalformedAuthStr => "ERR malformed_auth_str\n"@,
            HandShakeOutputError::MalformedRequest => "ERR malformed_request\n"@,
            HandShakeOutputError::IncorrectAuthInfo => "ERR incorrect_auth_info\n"@,
        }
    }

    pub fn as_str(&self) -> (line: &'static str)
        ensures
            line@ == self.text(),
    {
        match self {
            Self::InvalidHandShake => "ERR invalid_handshake\n",
            Self::InvalidHandShakeMsg => "ERR invalid_handshake_msg\n",
            Self::MalformedAuthStr => "ERR malformed_auth_str\n",
            Self::MalformedRequest => "ERR malformed_request\n",
            Self::IncorrectAuthInfo => "ERR incorrect_auth_info\n",
        }
    }
}

impl HandShakeOutputMsg {
    /// The line that carries this message to the client.
    pub open spec fn text(self) -> Seq<char> {
        match self {
            HandShakeOutputMsg::InitConn => "INITCONN\n"@,
            HandShakeOutputMsg::Error(err) => err.text(),
            HandShakeOutputMsg::Ready => "READY\n"@,
        }
    }

    pub fn as_str(&self) -> (line: &'static str)
        ensures
            line@ == self.text(),
    {
        match self {
            Self::InitConn => "INITCONN\n",
            Self::Error(err) => err.as_str(),
            Self::Ready => "READY\n",
        }
    }

    /// Whether the connection goes on to its command: only after `Ready`.
    pub fn admits(&self) -> (admitted: bool)
        ensures
            admitted == (*self == HandShakeOutputMsg::Ready),
    {
        match self {
            Self::Ready => true,
            _ => false,
        }
    }

    /// The bytes that go on the wire: the line in UTF-8.
    pub fn as_bytes(&self) -> (bytes: &'static [u8])
        ensures
            bytes@ == vstd::utf8::encode_utf8(self.text()),
    {
        self.as_str().as_bytes()
    }
}

impl DatabaseOutputError {
    /// The line that reports this error to the client.
    pub open spec fn text(self) -> Seq<char> {
        match self {
            DatabaseOutputError::InvalidInput => "ERR invalid_input\n"@,
            DatabaseOutputError::CmdNotAvailable => "ERR cmd_not_available\n"@,
        }
    }

    pub fn as_str(&self) -> (line: &'static str)
        ensures
            line@ == self.text(),
    {
        match self {
            Self::InvalidInput => "ERR invalid_input\n",
            Self::CmdNotAvailable => "ERR cmd_not_available\n",
        }
    }
}

/// Each error of a response is one line: it ends with a line end and holds
/// no other. The two errors have different lines.
pub proof fn error_lines_end_with_line_end(err: DatabaseOutputError)
    ensures
        err.text().len() > 0,
        err.text().last() == '\n',
        forall|i: int| 0 <= i < err.text().len() - 1 ==> err.text()[i] != '\n',
        DatabaseOutputError::InvalidInput.text() != DatabaseOutputError::CmdNotAvailable.text(),
{
    reveal_strlit("ERR invalid_input\n");
    reveal_strlit("ERR cmd_not_available\n");
    assert(DatabaseOutputError::InvalidInput.text().len() == 18);
    assert(DatabaseOutputError::CmdNotAvailable.text().len() == 22);
}

impl DatabaseOutputMsg {
    /// The bytes that go on the wire: the text in UTF-8.
    pub fn to_bytes(&self) -> (bytes: Vec<u8>)
        ensures
            bytes@ == vstd::utf8::encode_utf8(self@.text()),
    {
        match self {
            Self::Noop => {
                let bytes = Vec::new();
                assert(vstd::utf8::encode_utf8(Seq::<char>::empty()) =~= Seq::<u8>::empty());
                bytes
            },
            Self::Error(err) => err.as_str().as_bytes_vec(),
            Self::Collections(collection) => collection.as_str().as_bytes_vec(),
            Self::Collection(collection_name) => collection_name.as_str().as_bytes_vec(),
            Self::Records(records) => records.as_str().as_bytes_vec(),
            Self::CreatedCollection(collection_id) => collection_id.as_str().as_bytes_vec(),
            Self::CreatedRecord(record_id) => record_id.as_str().as_bytes_vec(),
            Self::DeletedCollection(collection_id) => collection_id.as_str().as_bytes_vec(),
            Self::DeletedRecord(record_id) => record_id.as_str().as_bytes_vec(),
        }
    }
}

impl InputSource {
    /// The name of the source in messages.
    pub open spec fn text(self) -> Seq<char> {
        match self {
            InputSource::Cli => "CLI"@,
            InputSource::Tcp => "TCP"@,
        }
    }

    pub fn as_str(&self) -> (name: &'static str)
        ensures
            name@ == self.text(),
    {
        match self {
            Self::Cli => "CLI",
            Self::Tcp => "TCP",
        }
    }
}

/// The request that takes one argument, or the failure for its keyword where
/// the line holds no second word.
pub open spec fn with_one_argument(
    parts: Seq<Seq<char>>,
    keyword: Keyword,
    request: spec_fn(Seq<char>) -> Request,
) -> Result<Request, ParseFailure> {
    if parts.len() >= 2 {
        Ok(request(parts[1]))
    } else {
        Err(ParseFailure::MissingArgument(keyword))
    }
}

/// The request that takes two arguments, or the failure for its keyword
/// where the line holds no third word.
pub open spec fn with_two_arguments(
    parts: Seq<Seq<char>>,
    keyword: Keyword,
    request: spec_fn(Seq<char>, Seq<char>) -> Request,
) -> Result<Request, ParseFailure> {
    if parts.len() >= 3 {
        Ok(request(parts[1], parts[2]))
    } else {
        Err(ParseFailure::MissingArgument(keyword))
    }
}

/// What `REC_CREATE` stands for, given what the body was read as: the
/// request with the body's entries, or `InvalidBody` with what `serde_json`
/// says of the body where it is not the text of a JSON object.
pub open spec fn record_request_spec(
    collection_id: Seq<char>,
    body: Result<Map<Seq<char>, Json>, Seq<char>>,
) -> Result<Request, ParseFailure> {
    match body {
        Ok(contents) => Ok(Request::CreateRecord(collection_id, contents)),
        Err(said) => Err(ParseFailure::InvalidBody(said)),
    }
}

/// The grammar of command lines. The line `STOP` stops the server, but not
/// from the socket. A line without words asks for nothing. Otherwise the
/// first word is the keyword and the next words are its arguments; the body
/// of `REC_CREATE` is the rest of the words, joined by single blanks.
pub open spec fn parse_spec(line: Seq<char>, source: InputSource) -> Result<Request, ParseFailure> {
    let parts = words(line);
    if line == "STOP"@ {
        if source == InputSource::Tcp {
            Err(ParseFailure::NotAvailable(source))
        } else {
            Ok(Request::Stop)
        }
    } else if parts.len() == 0 {
        Ok(Request::Noop)
    } else if parts[0] == "COLLECTIONS_LIST"@ {
        Ok(Request::CollectionsList)
    } else if parts[0] == "COLLECTION"@ {
        with_one_argument(parts, Keyword::Collection, |id: Seq<char>| Request::Collection(id))
    } else if parts[0] == "CLN_GET"@ {
        with_one_argument(parts, Keyword::ClnGet, |id: Seq<char>| Request::CollectionRecords(id))
    } else if parts[0] == "REC_GET"@ {
        with_two_arguments(
            parts,
            Keyword::RecGet,
            |id: Seq<char>, record_id: Seq<char>| Request::IdRecord(id, record_id),
        )
    } else if parts[0] == "CLN_CREATE"@ {
        with_one_argument(
            parts,
            Keyword::ClnCreate,
            |name: Seq<char>| Request::CreateCollection(name),
        )
    } else if parts[0] == "REC_CREATE"@ {
        if parts.len() >= 2 {
            record_request_spec(parts[1], parsed_object(joined(parts.skip(2))))
        } else {
            Err(ParseFailure::MissingArgument(Keyword::RecCreate))
        }
    } else if parts[0] == "CLN_DELETE"@ {
        with_one_argument(
            parts,
            Keyword::ClnDelete,
            |id: Seq<char>| Request::DeleteCollection(id),
        )
    } else if parts[0] == "REC_DELETE"@ {
        with_two_arguments(
            parts,
            Keyword::RecDelete,
            |id: Seq<char>, record_id: Seq<char>| Request::DeleteRecord(id, record_id),
        )
    } else {
        Err(ParseFailure::Unsupported(source, line))
    }
}

/// The request that `REC_CREATE` stands for, once its body has been read:
/// `body` holds the contents, or what `serde_json` says of a body that it
/// cannot read.
pub fn record_request(collection_id: String, body: Result<Record, String>) -> (parsed: Result<
    DatabaseInputType,
    ParseError,
>)
    ensures
        match parsed {
            Ok(request) => body is Ok && request@ == Request::CreateRecord(
                collection_id@,
                body->Ok_0@,
            ),
            Err(err) => body is Err && err@ == ParseFailure::InvalidBody(body->Err_0@),
        },
{
    match body {
        Ok(contents) => Ok(DatabaseInputType::CreateRecord(collection_id, contents)),
        Err(said) => Err(ParseError::InvalidBody(said)),
    }
}

/// Reads a command line.
pub fn parse_str_to_db_input_type(value: String, source: InputSource) -> (parsed: Result<
    DatabaseInputType,
    ParseError,
>)
    ensures
        match parsed {
            Ok(request) => parse_spec(value@, source) == Ok::<Request, ParseFailure>(request@),
            Err(err) => parse_spec(value@, source) == Err::<Request, ParseFailure>(err@),
        },
{
    if str_eq(value.as_str(), "STOP") {
        return match source {
            InputSource::Tcp => Err(ParseError::NotAvailable(source)),
            InputSource::Cli => Ok(DatabaseInputType::Stop),
        };
    }
    let parts = split_whitespace(value.as_str());
    if parts.len() == 0 {
        return Ok(DatabaseInputType::Noop);
    }
    let command = parts[0].as_str();
    if str_eq(command, "COLLECTIONS_LIST") {
        Ok(DatabaseInputType::CollectionsList)
    } else if str_eq(command, "COLLECTION") {
        if parts.len() >= 2 {
            Ok(DatabaseInputType::Collection(parts[1].clone()))
        } else {
            Err(ParseError::MissingArgument(Keyword::Collection))
        }
    } else if str_eq(command, "CLN_GET") {
        if parts.len() >= 2 {
            Ok(DatabaseInputType::CollectionRecords(parts[1].clone()))
        } else {
            Err(ParseError::MissingArgument(Keyword::ClnGet))
        }
    } else if str_eq(command, "REC_GET") {
        if parts.len() >= 3 {
            Ok(DatabaseInputType::IdRecord(parts[1].clone(), parts[2].clone()))
        } else {
            Err(ParseError::MissingArgument(Keyword::RecGet))
        }
    } else if str_eq(command, "CLN_CREATE") {
        if parts.len() >= 2 {
            Ok(DatabaseInputType::CreateCollection(parts[1].clone()))
        } else {
            Err(ParseError::MissingArgument(Keyword::ClnCreate))
        }
    } else if str_eq(command, "REC_CREATE") {
        if parts.len() >= 2 {
            let content = join_from(&parts, 2);
            record_request(parts[1].clone(), parse_object(content.as_str()))
        } else {
            Err(ParseError::MissingArgument(Keyword::RecCreate))
        }
    } else if str_eq(command, "CLN_DELETE") {
        if parts.len() >= 2 {
            Ok(DatabaseInputType::DeleteCollection(parts[1].clone()))
        } else {
            Err(ParseError::MissingArgument(Keyword::ClnDelete))
        }
    } else if str_eq(command, "REC_DELETE") {
        if parts.len() >= 3 {
            Ok(DatabaseInputType::DeleteRecord(parts[1].clone(), parts[2].clone()))
        } else {
            Err(ParseError::MissingArgument(Keyword::RecDelete))
        }
    } else {
        Err(ParseError::Unsupported(source, value))
    }
}

} // verus!
