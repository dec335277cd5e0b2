//! The auth gate: setting up the one pair of credentials and checking what a
//! client presents against it.

use vstd::prelude::*;
use crate::molecule::Molecule;
use crate::proto::AuthInfo;
use crate::proto::Credentials;
use crate::text::str_eq;

verus! {

/// `bcrypt::BcryptError`: why hashing or checking failed, opaque here.
#[verifier::external_type_specification]
#[verifier::external_body]
pub struct ExBcryptError(bcrypt::BcryptError);

/// The cost that passwords are hashed with.
pub const HASH_COST: u32 = 12;

/// What `bcrypt::verify` finds for a password and a hash: whether the hash
/// is one of the password, or `None` where it reports an error.
pub uninterp spec fn bcrypt_verdict(password: Seq<char>, hash: Seq<char>) -> Option<bool>;

/// `bcrypt::verify`. The result is a function of the password and the hash
/// alone: the verdict that `bcrypt_verdict` names, or the crate's error
/// where it names none.
#[verifier::external_body]
pub(crate) fn verify_password(password: &str, hash: &str) -> (checked: Result<
    bool,
    bcrypt::BcryptError,
>)
    ensures
        match checked {
            Ok(verdict) => bcrypt_verdict(password@, hash@) == Some(verdict),
            Err(_) => bcrypt_verdict(password@, hash@) is None,
        },
{
    bcrypt::verify(password, hash)
}

/// Whether a hash is written in the form that names the cost: 60
/// characters that start with `$2b$`, the cost in two digits and `$`.
pub open spec fn names_cost(hash: Seq<char>, cost: u32) -> bool {
    &&& hash.len() == 60
    &&& hash[0] == '$'
    &&& hash[1] == '2'
    &&& hash[2] == 'b'
    &&& hash[3] == '$'
    &&& hash[4] as u32 == 0x30 + cost / 10
    &&& hash[5] as u32 == 0x30 + cost % 10
    &&& hash[6] == '$'
}

/// `bcrypt::hash`. The salt is random, so the hash differs from call to
/// call; whichever comes, it names the cost that it was made with, and
/// `bcrypt::verify` accepts the password for it.
#[verifier::external_body]
pub(crate) fn hash_password(password: &str, cost: u32) -> (hashed: Result<
    String,
    bcrypt::BcryptError,
>)
    ensures
        hashed matches Ok(hash) ==> bcrypt_verdict(password@, hash@) == Some(true),
        hashed matches Ok(hash) ==> names_cost(hash@, cost),
{
    bcrypt::hash(password, cost)
}

/// What `bcrypt` says of an error: the text that its `Display` prints.
/// Nothing is claimed of it.
#[verifier::external_body]
pub(crate) fn bcrypt_error_text(err: &bcrypt::BcryptError) -> String {
    err.to_string()
}

/// Why the auth gate could not answer.
#[derive(Debug, Clone, PartialEq, Eq)]
pub enum AuthError {
    /// The password could not be hashed; the field holds what `bcrypt`
    /// says.
    Hash(String),
    /// The password could not be checked against the stored hash; the
    /// field holds what `bcrypt` says.
    Verify(String),
}

impl AuthError {
    /// What `bcrypt` said.
    pub fn message(&self) -> (text: String)
        ensures
            text@ == match self {
                AuthError::Hash(said) => said@,
                AuthError::Verify(said) => said@,
            },
    {
        match self {
            AuthError::Hash(said) => said.clone(),
            AuthError::Verify(said) => said.clone(),
        }
    }
}

/// Whether the presented credentials are valid: credentials must be
/// active, the user names must be equal, and the hash must be one of the
/// password. `None` where the hash cannot be checked.
pub open spec fn valid_user(active: Option<Credentials>, username: Seq<char>, password: Seq<char>)
    -> Option<bool> {
    match active {
        None => Some(false),
        Some(info) => if info.username != username {
            Some(false)
        } else {
            bcrypt_verdict(password, info.password)
        },
    }
}

/// The answer of the auth gate, once the hash has been checked.
pub fn verdict(checked: Result<bool, bcrypt::BcryptError>) -> (valid: Result<bool, AuthError>)
    ensures
        match valid {
            Ok(verdict) => checked == Ok::<bool, bcrypt::BcryptError>(verdict),
            Err(err) => checked is Err && err is Verify,
        },
{
    match checked {
        Ok(verdict) => Ok(verdict),
        Err(err) => Err(AuthError::Verify(bcrypt_error_text(&err))),
    }
}

/// The credentials for a user name and the hash of its password.
pub fn hashed_credentials(username: String, hashed: Result<String, bcrypt::BcryptError>) -> (made:
    Result<AuthInfo, AuthError>)
    ensures
        match made {
            Ok(info) => hashed is Ok && info.username == username && info.password
                == hashed->Ok_0,
            Err(err) => hashed is Err && err is Hash,
        },
{
    match hashed {
        Ok(password) => Ok(AuthInfo { username, password }),
        Err(err) => Err(AuthError::Hash(bcrypt_error_text(&err))),
    }
}

/// Credentials that were made from a user name and a hash of its password
/// are valid for that user name and password.
pub proof fn hashed_credentials_are_valid(username: Seq<char>, password: Seq<char>, hash: Seq<char>)
    requires
        bcrypt_verdict(password, hash) == Some(true),
    ensures
        valid_user(Some(Credentials { username, password: hash }), username, password) == Some(
            true,
        ),
{
}

/// Without active credentials nothing that is presented is valid, and
/// another user name than the active one is never valid, whatever the
/// password.
pub proof fn other_users_are_not_valid(
    active: Option<Credentials>,
    username: Seq<char>,
    password: Seq<char>,
)
    requires
        active is None || active->0.username != username,
    ensures
        valid_user(active, username, password) == Some(false),
{
}

/// The auth gate of a server.
pub trait MoleculeAuthApi {
    /// Sets the active credentials. `stored` is what the credential file
    /// holds, if it exists. Returns the credentials that are to be written
    /// to the file, if any.
    fn setup_user(
        &mut self,
        stored: Option<AuthInfo>,
        username: String,
        password: String,
    ) -> Result<Option<AuthInfo>, AuthError>;

    /// Whether the presented credentials are the active ones.
    fn is_valid_user(&self, username: &str, password: &str) -> Result<bool, AuthError>;
}

impl MoleculeAuthApi for Molecule {
    /// Stored credentials win: they become active and nothing is written.
    /// Without them the password is hashed with the cost `HASH_COST`, and the
    /// user name with the hash becomes active and is returned for writing.
    fn setup_user(
        &mut self,
        stored: Option<AuthInfo>,
        username: String,
        password: String,
    ) -> (persist: Result<Option<AuthInfo>, AuthError>)
        ensures
            final(self).addr == old(self).addr,
            final(self).port == old(self).port,
            match stored {
                Some(info) => persist == Ok::<Option<AuthInfo>, AuthError>(None)
                    && final(self).active_user == Some(info),
                None => match persist {
                    Ok(Some(info)) => {
                        &&& info.username == username
                        &&& names_cost(info.password@, HASH_COST)
                        &&& bcrypt_verdict(password@, info.password@) == Some(true)
                        &&& final(self).credentials() == Some(info@)
                    },
                    Ok(None) => false,
                    Err(err) => err is Hash && final(self).active_user == old(self).active_user,
                },
            },
    {
        match stored {
            Some(info) => {
                self.active_user = Some(info);
                Ok(None)
            },
            None => {
                let hashed = hash_password(password.as_str(), HASH_COST);
                match hashed_credentials(username, hashed) {
                    Ok(info) => {
                        self.active_user = Some(
                            AuthInfo {
                                username: info.username.clone(),
                                password: info.password.clone(),
                            },
                        );
                        Ok(Some(info))
                    },
                    Err(err) => Err(err),
                }
            },
        }
    }

    fn is_valid_user(&self, username: &str, password: &str) -> (valid: Result<bool, AuthError>)
        ensures
            match valid {
                Ok(verdict) => valid_user(self.credentials(), username@, password@) == Some(
                    verdict,
                ),
                Err(err) => valid_user(self.credentials(), username@, password@) is None
                    && err is Verify,
            },
    {
        match &self.active_user {
            Some(info) => {
                if !str_eq(info.username.as_str(), username) {
                    return Ok(false);
                }
                verdict(verify_password(password, info.password.as_str()))
            },
            None => Ok(false),
        }
    }
}

} // verus!
