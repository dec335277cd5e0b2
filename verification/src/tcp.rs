//! The socket front end: the handshake that opens a connection, and the
//! response that an outcome is sent as. The socket itself is the caller's.

use vstd::prelude::*;
use vstd::string::StringExecFns;
use crate::auth::AuthError;
use crate::auth::MoleculeAuthApi;
use crate::auth::valid_user;
use crate::dispatch::Outcome;
use crate::dispatch::Step;
use crate::dispatch::handle;
use crate::dispatch::handles;
use crate::json::json_text;
use crate::json::list_of_objects;
use crate::molecule::Molecule;
use crate::proto::Credentials;
use crate::proto::DatabaseOutputError;
use crate::proto::DatabaseOutputMsg;
use crate::proto::HandShakeInputMsg;
use crate::proto::HandShakeOutputError;
use crate::proto::HandShakeOutputMsg;
use crate::proto::InputSource;
use crate::proto::ParseError;
use crate::proto::ParseFailure;
use crate::proto::Response;
use crate::store::collection::collections_text;
use crate::store::collection::registry_text;
use crate::store::error::StoreError;
use crate::store::record::found_record_text;
use crate::store::record::found_text;
use crate::store::record::optional_entries;
use crate::store::record::records_text;
use crate::text::split_once;
use crate::text::split_once_spec;
use crate::text::split_whitespace;
use crate::text::trimmed;
use crate::text::words;

verus! {

/// What the server answers to a hello with the keyword `message`.
/// `valid` is `None` where the client presented no credentials, else
/// whether those it presented are valid. Invalid credentials are
/// rejected first, then a keyword other than the affirmative one.
pub open spec fn reply_spec(message: HandShakeInputMsg, valid: Option<bool>) -> HandShakeOutputMsg {
    if valid == Some(false) {
        HandShakeOutputMsg::Error(HandShakeOutputError::IncorrectAuthInfo)
    } else if message != HandShakeInputMsg::Okay {
        HandShakeOutputMsg::Error(HandShakeOutputError::InvalidHandShake)
    } else {
        HandShakeOutputMsg::Ready
    }
}

/// What the server answers to the client's hello line, given the active
/// credentials. The first word is the keyword; a second word holds a user
/// name and a password with `:` between them; further words are passed
/// over. `None` where the presented password cannot be checked.
pub open spec fn handshake_spec(line: Seq<char>, active: Option<Credentials>) -> Option<
    HandShakeOutputMsg,
> {
    let parts = words(line);
    if parts.len() == 0 {
        Some(HandShakeOutputMsg::Error(HandShakeOutputError::MalformedRequest))
    } else {
        match HandShakeInputMsg::spelled_by(parts[0]) {
            None => Some(HandShakeOutputMsg::Error(HandShakeOutputError::InvalidHandShakeMsg)),
            Some(message) => if parts.len() >= 2 {
                match split_once_spec(parts[1], ':') {
                    None => Some(
                        HandShakeOutputMsg::Error(HandShakeOutputError::MalformedAuthStr),
                    ),
                    Some((username, password)) => match valid_user(active, username, password) {
                        None => None,
                        Some(valid) => Some(reply_spec(message, Some(valid))),
                    },
                }
            } else {
                Some(reply_spec(message, None))
            },
        }
    }
}

/// The answer to a hello with the keyword `message`, once the presented
/// credentials, if any, have been checked.
pub fn handshake_reply(message: HandShakeInputMsg, valid: Option<bool>) -> (reply:
    HandShakeOutputMsg)
    ensures
        reply == reply_spec(message, valid),
{
    match valid {
        Some(false) => HandShakeOutputMsg::Error(HandShakeOutputError::IncorrectAuthInfo),
        _ => match message {
            HandShakeInputMsg::Okay => HandShakeOutputMsg::Ready,
        },
    }
}

/// The response that tells a socket client why its line stands for no
/// request: `CmdNotAvailable` for the stop keyword, `InvalidInput` for all
/// else.
pub open spec fn rejection_spec(failure: ParseFailure) -> DatabaseOutputError {
    match failure {
        ParseFailure::NotAvailable(_) => DatabaseOutputError::CmdNotAvailable,
        _ => DatabaseOutputError::InvalidInput,
    }
}

/// The response that tells a socket client why its line stands for no
/// request.
pub fn rejection(err: &ParseError) -> (code: DatabaseOutputError)
    ensures
        code == rejection_spec(err@),
{
    match err {
        ParseError::NotAvailable(_) => DatabaseOutputError::CmdNotAvailable,
        _ => DatabaseOutputError::InvalidInput,
    }
}

/// The response that an outcome is sent as over the socket, or `None`
/// where `serde_json` cannot write its payload. Lists and records go out as
/// JSON text, a record that was not found as the JSON `null`, a collection
/// that was not found as the name `null`; what was created goes out as its
/// identifier. A request to stop, or one that the store has no operation
/// for, is answered with `CmdNotAvailable`.
pub open spec fn response_spec(outcome: Outcome) -> Option<Response> {
    match outcome {
        Outcome::Rejected(err) => Some(Response::Error(rejection_spec(err@))),
        Outcome::Nothing => Some(Response::Noop),
        Outcome::Stop => Some(Response::Error(DatabaseOutputError::CmdNotAvailable)),
        Outcome::Unavailable => Some(Response::Error(DatabaseOutputError::CmdNotAvailable)),
        Outcome::Collections(listed) => match registry_text(listed.deep_view()) {
            Some(text) => Some(Response::Collections(text)),
            None => None,
        },
        Outcome::CollectionName(Some(name)) => Some(Response::Collection(name@)),
        Outcome::CollectionName(None) => Some(Response::Collection("null"@)),
        Outcome::Records(records) => match json_text(list_of_objects(records.deep_view())) {
            Some(text) => Some(Response::Records(text)),
            None => None,
        },
        Outcome::FoundRecord(found) => match found_record_text(optional_entries(found)) {
            Some(text) => Some(Response::Records(text)),
            None => None,
        },
        Outcome::CreatedCollection(id) => Some(Response::CreatedCollection(id@)),
        Outcome::CreatedRecord(id) => Some(Response::CreatedRecord(id@)),
    }
}

/// The response that an outcome is sent as over the socket.
pub fn respond(outcome: Outcome) -> (response: Result<DatabaseOutputMsg, StoreError>)
    ensures
        match response {
            Ok(msg) => response_spec(outcome) == Some(msg@),
            Err(err) => response_spec(outcome) is None && err is Encode,
        },
{
    match outcome {
        Outcome::Rejected(err) => Ok(DatabaseOutputMsg::Error(rejection(&err))),
        Outcome::Nothing => Ok(DatabaseOutputMsg::Noop),
        Outcome::Stop => Ok(DatabaseOutputMsg::Error(DatabaseOutputError::CmdNotAvailable)),
        Outcome::Unavailable => Ok(DatabaseOutputMsg::Error(DatabaseOutputError::CmdNotAvailable)),
        Outcome::Collections(listed) => match collections_text(&listed) {
            Ok(text) => Ok(DatabaseOutputMsg::Collections(text)),
            Err(err) => Err(err),
        },
        Outcome::CollectionName(Some(name)) => Ok(DatabaseOutputMsg::Collection(name)),
        Outcome::CollectionName(None) => Ok(
            DatabaseOutputMsg::Collection(String::from_str("null")),
        ),
        Outcome::Records(records) => match records_text(&records) {
            Ok(text) => Ok(DatabaseOutputMsg::Records(text)),
            Err(err) => Err(err),
        },
        Outcome::FoundRecord(found) => match found_text(&found) {
            Ok(text) => Ok(DatabaseOutputMsg::Records(text)),
            Err(err) => Err(err),
        },
        Outcome::CreatedCollection(id) => Ok(DatabaseOutputMsg::CreatedCollection(id)),
        Outcome::CreatedRecord(id) => Ok(DatabaseOutputMsg::CreatedRecord(id)),
    }
}

/// Where a connection stands. It starts by awaiting the client's hello;
/// after `Ready` it awaits one command; after the command, or after a
/// rejected hello, it is closed.
#[derive(Debug, Clone, Copy, PartialEq, Eq, Hash, Structural)]
pub enum Connection {
    AwaitingHello,
    AwaitingCommand,
    Closed,
}

/// What the server does with a line that it received.
#[derive(Debug, Clone, PartialEq, Eq)]
pub enum Reaction {
    /// It sends this message of the handshake.
    Reply(HandShakeOutputMsg),
    /// It carries this step out and sends the response to its outcome.
    Run(Step),
    /// Nothing: the connection is closed.
    Nothing,
}

impl Connection {
    /// A new connection, with the message that the server sends at once.
    pub fn open() -> (opened: (Connection, HandShakeOutputMsg))
        ensures
            opened == (Connection::AwaitingHello, HandShakeOutputMsg::InitConn),
    {
        (Connection::AwaitingHello, HandShakeOutputMsg::InitConn)
    }
}

/// Whether `result` is what the server makes of a line on a connection in
/// `state`. A hello is answered, and only `Ready` lets the connection go on
/// to its command; a hello whose password cannot be checked fails. A command
/// takes its first step and closes the connection. A closed connection
/// stays closed.
pub open spec fn reacts(
    state: Connection,
    line: Seq<char>,
    active: Option<Credentials>,
    result: Result<(Connection, Reaction), AuthError>,
) -> bool {
    match state {
        Connection::AwaitingHello => match handshake_spec(line, active) {
            Some(msg) => {
                &&& result matches Ok((next, Reaction::Reply(sent)))
                &&& sent == msg
                &&& next == if msg == HandShakeOutputMsg::Ready {
                    Connection::AwaitingCommand
                } else {
                    Connection::Closed
                }
            },
            None => result matches Err(err) && err is Verify,
        },
        Connection::AwaitingCommand => {
            &&& result matches Ok((next, Reaction::Run(step)))
            &&& next == Connection::Closed
            &&& handles(line, InputSource::Tcp, step)
        },
        Connection::Closed => {
            &&& result matches Ok((next, Reaction::Nothing))
            &&& next == Connection::Closed
        },
    }
}

/// The socket front end of a server, without the socket: what is read from
/// the client comes in, what is to be sent or done comes back.
pub trait MoleculeTcpApi {
    /// Answers the client's hello line.
    fn handshake(&self, incoming: &str) -> Result<HandShakeOutputMsg, AuthError>;

    /// What the server makes of a line on a connection, and where the
    /// connection stands then.
    fn handle_client(&self, state: Connection, incoming: String) -> Result<
        (Connection, Reaction),
        AuthError,
    >;
}

impl MoleculeTcpApi for Molecule {
    /// Answers the client's hello line: `Ready`, or the error that rejects
    /// the connection.
    fn handshake(&self, incoming: &str) -> (reply: Result<HandShakeOutputMsg, AuthError>)
        ensures
            match reply {
                Ok(msg) => handshake_spec(incoming@, self.credentials()) == Some(msg),
                Err(err) => handshake_spec(incoming@, self.credentials()) is None
                    && err is Verify,
            },
    {
        let incoming_parts = split_whitespace(incoming);
        if incoming_parts.len() == 0 {
            return Ok(HandShakeOutputMsg::Error(HandShakeOutputError::MalformedRequest));
        }
        let message = match HandShakeInputMsg::try_from(incoming_parts[0].as_str()) {
            Ok(parsed_msg) => parsed_msg,
            Err(err) => {
                return Ok(HandShakeOutputMsg::Error(err));
            },
        };
        if incoming_parts.len() >= 2 {
            let (username, password) = match split_once(incoming_parts[1].as_str(), ':') {
                Some(halves) => halves,
                None => {
                    return Ok(HandShakeOutputMsg::Error(HandShakeOutputError::MalformedAuthStr));
                },
            };
            match self.is_valid_user(username.as_str(), password.as_str()) {
                Ok(valid) => Ok(handshake_reply(message, Some(valid))),
                Err(err) => Err(err),
            }
        } else {
            Ok(handshake_reply(message, None))
        }
    }

    fn handle_client(&self, state: Connection, incoming: String) -> (result: Result<
        (Connection, Reaction),
        AuthError,
    >)
        ensures
            reacts(state, incoming@, self.credentials(), result),
    {
        match state {
            Connection::AwaitingHello => match self.handshake(incoming.as_str()) {
                Ok(reply) => {
                    let next = if reply.admits() {
                        Connection::AwaitingCommand
                    } else {
                        Connection::Closed
                    };
                    Ok((next, Reaction::Reply(reply)))
                },
                Err(err) => Err(err),
            },
            Connection::AwaitingCommand => Ok(
                (Connection::Closed, Reaction::Run(handle(incoming, InputSource::Tcp))),
            ),
            Connection::Closed => Ok((Connection::Closed, Reaction::Nothing)),
        }
    }
}

/// A hello that is the affirmative keyword and nothing else is answered
/// with `Ready`, whether credentials are active or not.
pub proof fn hello_without_credentials_is_ready(line: Seq<char>, active: Option<Credentials>)
    requires
        words(line).len() == 1,
        words(line)[0] == "OK"@,
    ensures
        handshake_spec(line, active) == Some(HandShakeOutputMsg::Ready),
{
}

/// A hello that is the affirmative keyword with a user name and a password
/// is answered with `Ready` if credentials are active, the user name is
/// theirs and the hash is one of the password, and with `IncorrectAuthInfo`
/// if not. This is stated of the hellos whose second word holds `:` and
/// whose password can be checked.
pub proof fn hello_with_credentials_is_ready_iff_valid(
    line: Seq<char>,
    active: Option<Credentials>,
    username: Seq<char>,
    password: Seq<char>,
)
    requires
        words(line).len() >= 2,
        words(line)[0] == "OK"@,
        split_once_spec(words(line)[1], ':') == Some((username, password)),
        valid_user(active, username, password) is Some,
    ensures
        handshake_spec(line, active) == Some(
            if active is Some && active->0.username == username && crate::auth::bcrypt_verdict(
                password,
                active->0.password,
            ) == Some(true) {
                HandShakeOutputMsg::Ready
            } else {
                HandShakeOutputMsg::Error(HandShakeOutputError::IncorrectAuthInfo)
            },
        ),
{
}

/// A connection whose hello is rejected never comes to its command: it is
/// closed, and what reaches it then is passed over.
pub proof fn rejected_hello_closes(
    line: Seq<char>,
    active: Option<Credentials>,
    result: Result<(Connection, Reaction), AuthError>,
    later: Seq<char>,
    after: Result<(Connection, Reaction), AuthError>,
)
    requires
        reacts(Connection::AwaitingHello, line, active, result),
        result is Ok,
        handshake_spec(line, active) != Some(HandShakeOutputMsg::Ready),
        reacts(result->Ok_0.0, later, active, after),
    ensures
        result->Ok_0.0 == Connection::Closed,
        after matches Ok((next, Reaction::Nothing)) && next == Connection::Closed,
{
}

/// The stop keyword from the socket never stops the server: its line is
/// done at its first step, and the response is the line
/// `ERR cmd_not_available`.
pub proof fn stop_from_socket_is_not_available(line: Seq<char>, step: Step)
    requires
        trimmed(line) == "STOP"@,
        handles(line, InputSource::Tcp, step),
    ensures
        step matches Step::Done(outcome) && !(outcome is Stop) && response_spec(outcome) == Some(
            Response::Error(DatabaseOutputError::CmdNotAvailable),
        ),
        Response::Error(DatabaseOutputError::CmdNotAvailable).text()
            == "ERR cmd_not_available\n"@,
{
}

/// A request to stop, wherever it came from, is answered over the socket
/// with `CmdNotAvailable`.
pub proof fn stop_is_answered_not_available()
    ensures
        response_spec(Outcome::Stop) == Some(
            Response::Error(DatabaseOutputError::CmdNotAvailable),
        ),
{
}

} // verus!
