//! A small document store served over a line protocol: the handshake, the
//! command grammar, the dispatcher and the rules of the collection and record
//! stores, with their contracts.

pub mod args;
pub mod auth;
pub mod cli;
pub mod constants;
pub mod dispatch;
pub mod json;
pub mod molecule;
pub mod proto;
pub mod store;
pub mod tcp;
pub mod text;
