//! The options that the server is started with, and what they resolve to.

use vstd::prelude::*;
use vstd::string::StringExecFns;
use crate::constants::MOLECULE_DEFAULT_ADDR;
use crate::constants::MOLECULE_DEFAULT_PORT;
use crate::molecule::Molecule;
use crate::text::split_once;
use crate::text::split_once_spec;

verus! {

/// The options of the command line.
#[derive(Debug, Clone, PartialEq, Eq)]
pub struct Args {
    /// The address to bind to; `0.0.0.0` where it is left out.
    pub addr: Option<String>,
    /// The port to bind to; `80` where it is left out.
    pub port: Option<u32>,
    /// A user name and a password with `:` between them, for the auth gate.
    pub auth: Option<String>,
    /// Whether the interactive shell runs beside the server.
    pub cli: bool,
    pub enable_logging: bool,
}

impl Default for Args {
    fn default() -> (args: Self)
        ensures
            args.addr is Some,
            args.addr->0@ == MOLECULE_DEFAULT_ADDR@,
            args.port == Some(MOLECULE_DEFAULT_PORT),
            args.auth is None,
            !args.cli,
            !args.enable_logging,
    {
        Self {
            addr: Some(String::from_str(MOLECULE_DEFAULT_ADDR)),
            port: Some(MOLECULE_DEFAULT_PORT),
            auth: None,
            cli: false,
            enable_logging: false,
        }
    }
}

/// Why the options resolve to nothing.
#[derive(Debug, Clone, Copy, PartialEq, Eq, Structural)]
pub enum StartupError {
    /// The auth option holds no `:`.
    MalformedAuth,
}

impl StartupError {
    /// The message for the user.
    pub fn message(&self) -> (text: &'static str)
        ensures
            text@ == "Could not parse auth string for username and password."@,
    {
        "Could not parse auth string for username and password."
    }
}

/// What the options resolve to: the server's state, and the user name and
/// password to set up, if any were given.
#[derive(Debug)]
pub struct Startup {
    pub molecule: Molecule,
    pub credentials: Option<(String, String)>,
}

impl Args {
    /// The address that the options stand for.
    pub open spec fn bind_addr(self) -> Seq<char> {
        match self.addr {
            Some(addr) => addr@,
            None => MOLECULE_DEFAULT_ADDR@,
        }
    }

    /// The port that the options stand for.
    pub open spec fn bind_port(self) -> u32 {
        match self.port {
            Some(port) => port,
            None => MOLECULE_DEFAULT_PORT,
        }
    }

    /// The user name and password that the options stand for: `None`
    /// where none are given, and an inner `None` where the auth option
    /// holds no `:`.
    pub open spec fn login(self) -> Option<Option<(Seq<char>, Seq<char>)>> {
        match self.auth {
            Some(auth) => Some(split_once_spec(auth@, ':')),
            None => None,
        }
    }

    /// Resolves the options: a server without active credentials for the
    /// given or the default address and port, and the credentials to set up,
    /// split at the first `:` of the auth option.
    pub fn startup(self) -> (resolved: Result<Startup, StartupError>)
        ensures
            match resolved {
                Ok(startup) => {
                    &&& startup.molecule.addr@ == self.bind_addr()
                    &&& startup.molecule.port == self.bind_port()
                    &&& startup.molecule.active_user is None
                    &&& match startup.credentials {
                        Some((username, password)) => self.login() == Some(
                            Some((username@, password@)),
                        ),
                        None => self.login() is None,
                    }
                },
                Err(_) => self.login() == Some(None::<(Seq<char>, Seq<char>)>),
            },
    {
        let addr = match self.addr {
            Some(addr) => addr,
            None => String::from_str(MOLECULE_DEFAULT_ADDR),
        };
        let port = match self.port {
            Some(port) => port,
            None => MOLECULE_DEFAULT_PORT,
        };
        let molecule = Molecule::new(addr, port);
        let credentials = match self.auth {
            Some(auth_str) => match split_once(auth_str.as_str(), ':') {
                Some(halves) => Some(halves),
                None => {
                    return Err(StartupError::MalformedAuth);
                },
            },
            None => None,
        };
        Ok(Startup { molecule, credentials })
    }
}

} // verus!
