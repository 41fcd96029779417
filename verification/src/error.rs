//! The failures the get-or-create operation can surface.
//!
//! Every variant here is fatal to the operation and is reported to the
//! caller as text.  Failures of the analytics notification are not among
//! them: they never reach the caller of the operation.

use vstd::prelude::*;

verus! {

/// Why the get-or-create operation failed.
pub enum ClientIdError {
    /// The host environment could not supply the private data directory.
    DirectoryResolution,
    /// The directory that should hold the identifier file could not be
    /// created; the field names it.
    DirectoryCreation(String),
    /// The identifier file could not be written; the field names it.
    FileWrite(String),
}

/// The error text each failure surfaces to the caller.
pub open spec fn spec_error_message(e: ClientIdError) -> Seq<char> {
    match e {
        ClientIdError::DirectoryResolution => "Failed to resolve app data directory"@,
        ClientIdError::DirectoryCreation(p) => "Failed to create directory: "@ + p@,
        ClientIdError::FileWrite(p) => "Failed to write client ID to: "@ + p@,
    }
}

impl ClientIdError {
    /// The error text surfaced to the caller of the operation.
    pub fn message(&self) -> (r: String)
        ensures
            r@ == spec_error_message(*self),
    {
        match self {
            ClientIdError::DirectoryResolution => String::from_str(
                "Failed to resolve app data directory",
            ),
            ClientIdError::DirectoryCreation(p) => String::from_str(
                "Failed to create directory: ",
            ).concat(p.as_str()),
            ClientIdError::FileWrite(p) => String::from_str(
                "Failed to write client ID to: ",
            ).concat(p.as_str()),
        }
    }
}

} // verus!
