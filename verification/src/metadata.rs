//! The remote file lister's view of one file, as the immutable snapshot
//! the pipeline works from.

use vstd::prelude::*;

verus! {

/// What the file lister reports of one remote file: its display name, its
/// canonical lower-case path, the two modification timestamps (RFC 3339
/// text as reported) and its size in bytes.
pub struct DropboxFileMetadata {
    pub name: String,
    pub path_lower: String,
    pub client_modified: String,
    pub server_modified: String,
    pub size: u64,
}

/// The mathematical content of a `DropboxFileMetadata`.
pub struct FileMetadataView {
    pub name: Seq<char>,
    pub path_lower: Seq<char>,
    pub client_modified: Seq<char>,
    pub server_modified: Seq<char>,
    pub size: u64,
}

impl View for DropboxFileMetadata {
    type V = FileMetadataView;

    open spec fn view(&self) -> FileMetadataView {
        FileMetadataView {
            name: self.name@,
            path_lower: self.path_lower@,
            client_modified: self.client_modified@,
            server_modified: self.server_modified@,
            size: self.size,
        }
    }
}

impl Clone for DropboxFileMetadata {
    fn clone(&self) -> (r: Self)
        ensures
            r == *self,
    {
        DropboxFileMetadata {
            name: self.name.clone(),
            path_lower: self.path_lower.clone(),
            client_modified: self.client_modified.clone(),
            server_modified: self.server_modified.clone(),
            size: self.size,
        }
    }
}

/// One listing call's answer: the files of the polled remote folder.
pub struct DropboxListFolderResponse {
    pub entries: Vec<DropboxFileMetadata>,
}

} // verus!
