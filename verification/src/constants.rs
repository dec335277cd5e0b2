//! Where the store keeps its files, and the defaults of the server.

use vstd::prelude::*;

verus! {

pub const MOLECULE_DOT_FILE_PATH: &'static str = ".molecule";

pub const MOLECULE_AUTH_FILE_PATH: &'static str = ".molecule/auth.store";

pub const MOLECULE_DEFAULT_DATA_PATH: &'static str = ".molecule/data";

pub const MOLECULE_DEFAULT_DATA_COLLECTIONS_PATH: &'static str = ".molecule/data/collections";

pub const MOLECULE_DEFAULT_DATA_COLLECTION_META_PATH: &'static str = ".molecule/data/map.json";

pub const MOLECULE_DEFAULT_ADDR: &'static str = "0.0.0.0";

pub const MOLECULE_DEFAULT_PORT: u32 = 80;

} // verus!
