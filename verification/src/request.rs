//! The request model: immutable value objects describing one dialog
//! invocation.
//!
//! A request carries an optional starting-directory hint, an optional list of
//! allowed bare file extensions (absent means no filtering), for save dialogs
//! a default file name and a list of file-type groups, and — through its type
//! — a target kind (file or directory) and a cardinality (single or
//! multiple).

use vstd::prelude::*;

verus! {

/// One file-type group of a save dialog: a human-readable description and
/// the bare extensions it covers.
pub struct FileType {
    pub description: String,
    pub extensions: Vec<String>,
}

impl FileType {
    pub fn new(description: String, extensions: Vec<String>) -> (t: FileType)
        ensures
            t.description == description,
            t.extensions == extensions,
    {
        FileType { description, extensions }
    }
}

/// Pick one existing file.
pub struct OpenSingleFile {
    pub dir: Option<String>,
    pub filter: Option<Vec<String>>,
}

/// Pick any number of existing files.
pub struct OpenMultipleFile {
    pub dir: Option<String>,
    pub filter: Option<Vec<String>>,
}

/// Pick one existing directory.
pub struct OpenSingleDir {
    pub dir: Option<String>,
}

/// Pick a location and name to save a file to.
pub struct SaveFile {
    pub dir: Option<String>,
    pub name: String,
    pub types: Vec<FileType>,
}

} // verus!
