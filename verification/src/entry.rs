//! One entry of the watched directory, as the driver reports it.

use vstd::prelude::*;

verus! {

/// The names of a directory entry whose path is text.
#[derive(Clone, Debug, PartialEq, Eq)]
pub struct EntryNames {
    /// The entry's path: the watched directory and the file name.
    pub path: String,
    /// The file name alone.
    pub file_name: String,
}

/// The mathematical content of an [`EntryNames`].
pub struct Names {
    pub path: Seq<char>,
    pub file_name: Seq<char>,
}

impl View for EntryNames {
    type V = Names;

    open spec fn view(&self) -> Names {
        Names { path: self.path@, file_name: self.file_name@ }
    }
}

/// One directory entry under evaluation. It is made afresh from each listing
/// and never kept from one scan to the next.
#[derive(Clone, Debug, PartialEq, Eq)]
pub struct FileEntry {
    /// Whether the entry is a regular file. An entry whose type could not be
    /// read counts as none.
    pub is_file: bool,
    /// The entry's names, or `None` where its path is not representable as text.
    pub names: Option<EntryNames>,
}

/// The mathematical content of a [`FileEntry`].
pub struct Entry {
    pub is_file: bool,
    pub names: Option<Names>,
}

impl View for FileEntry {
    type V = Entry;

    open spec fn view(&self) -> Entry {
        Entry {
            is_file: self.is_file,
            names: match self.names {
                Some(names) => Some(names@),
                None => None,
            },
        }
    }
}

} // verus!
