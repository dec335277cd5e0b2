//! How the store fails.

use vstd::prelude::*;
use vstd::string::StringExecFns;

verus! {

/// Why the store could not answer.
#[derive(Debug, Clone, PartialEq, Eq)]
pub enum StoreError {
    /// The stored bytes are not the JSON that the store writes; the field
    /// holds what `serde_json` says of them.
    Decode(String),
    /// The new contents could not be written as JSON; the field holds what
    /// `serde_json` says of them.
    Encode(String),
    /// Every identifier that was generated is one that the store holds
    /// already.
    IdentifierTaken,
}

impl StoreError {
    /// The message for the user: what `serde_json` said, or that no
    /// unused identifier was found.
    pub fn message(&self) -> (text: String)
        ensures
            text@ == match self {
                StoreError::Decode(said) => said@,
                StoreError::Encode(said) => said@,
                StoreError::IdentifierTaken => "No unused identifier could be generated."@,
            },
    {
        match self {
            StoreError::Decode(said) => said.clone(),
            StoreError::Encode(said) => said.clone(),
            StoreError::IdentifierTaken => String::from_str(
                "No unused identifier could be generated.",
            ),
        }
    }
}

} // verus!
