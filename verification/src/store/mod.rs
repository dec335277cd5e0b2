//! The document store: the registry of collections and the records of each.

pub mod collection;
pub mod error;
pub mod id;
pub mod record;
