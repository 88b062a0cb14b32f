//! The entries of a listing, and what the file system reports of one child
//! of a directory.

use vstd::prelude::*;

verus! {

/// One listed entry: the last segment of its path, and whether it is a
/// directory.
#[derive(Debug, Clone, PartialEq, Eq)]
pub struct FileInfo {
    pub folder: bool,
    pub name: String,
}

/// The mathematical value of a [`FileInfo`].
pub struct Entry {
    pub folder: bool,
    pub name: Seq<char>,
}

impl View for FileInfo {
    type V = Entry;

    open spec fn view(&self) -> Entry {
        Entry { folder: self.folder, name: self.name@ }
    }
}

/// The values of a sequence of entries, in the same order.
pub open spec fn entries(files: Seq<FileInfo>) -> Seq<Entry> {
    Seq::new(files.len(), |i: int| files[i]@)
}

/// What looking at one child of a directory gave: its name and kind, or the
/// message of the lookup that failed.
#[derive(Debug, Clone, PartialEq, Eq)]
pub enum Child {
    Found { name: String, folder: bool },
    Failed { message: String },
}

/// The mathematical value of a [`Child`].
pub enum ChildView {
    Found { name: Seq<char>, folder: bool },
    Failed { message: Seq<char> },
}

impl View for Child {
    type V = ChildView;

    open spec fn view(&self) -> ChildView {
        match self {
            Child::Found { name, folder } => ChildView::Found { name: name@, folder: *folder },
            Child::Failed { message } => ChildView::Failed { message: message@ },
        }
    }
}

/// The values of a sequence of children, in the same order.
pub open spec fn children(found: Seq<Child>) -> Seq<ChildView> {
    Seq::new(found.len(), |i: int| found[i]@)
}

} // verus!
