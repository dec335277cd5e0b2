//! The server's own state: where it listens and which credentials are
//! active.

use vstd::prelude::*;
use crate::proto::AuthInfo;
use crate::proto::Credentials;

verus! {

/// The state of one server.
#[derive(Debug)]
pub struct Molecule {
    pub addr: String,
    pub port: u32,
    /// The credentials that clients must present, if any are set up.
    pub active_user: Option<AuthInfo>,
}

impl Molecule {
    /// The active credentials as a mathematical value.
    pub open spec fn credentials(&self) -> Option<Credentials> {
        match self.active_user {
            Some(info) => Some(info@),
            None => None,
        }
    }

    /// A server for the given address and port, without credentials.
    pub fn new(addr: String, port: u32) -> (molecule: Self)
        ensures
            molecule.addr == addr,
            molecule.port == port,
            molecule.active_user is None,
    {
        Self { addr, port, active_user: None }
    }
}

} // verus!
