//! The request bodies the operations take: plain values as received
//! from the transport layer, which deserializes into its own copies
//! and converts.

use vstd::prelude::*;

verus! {

/// A request to create a directory under the user's namespace.
#[derive(Debug)]
pub struct DirectoryCreateRequest {
    pub path: String,
    pub name: String,
}

/// A request for the tree under a path of the user's namespace.
#[derive(Debug)]
pub struct FileStructureRequest {
    pub path: String,
}

/// A request to delete a file or a directory.
#[derive(Debug)]
pub struct DeleteEntityRequest {
    pub path: String,
    pub name: String,
}

/// A request to download a file or export a directory.
#[derive(Debug)]
pub struct DownloadEntityRequest {
    pub path: String,
    pub name: String,
}

/// A request to rename an entity within its directory.
#[derive(Debug)]
pub struct RenameItemRequest {
    pub path: String,
    pub old_name: String,
    pub new_name: String,
}

} // verus!
