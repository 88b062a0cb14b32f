//! The listing of a directory: which entries it shows, in which order, and
//! the project configuration that goes with them.

use vstd::prelude::*;
use crate::config::{fault_message, BookConf, ConfigError, ConfigFault, Project};
use crate::entry::{children, entries, Child, ChildView, Entry, FileInfo};
use crate::rules::{marks, marks_project, shows, visible};

verus! {

/// Why a listing has no entries, or no configuration.
#[derive(Debug, Clone, PartialEq, Eq)]
pub enum ListError {
    /// The directory could not be enumerated.
    Enumeration(String),
    /// Looking at one of the children failed.
    Metadata(String),
    /// The directory looks like a project, but its configuration could not
    /// be had.
    Config(ConfigError),
}

/// The mathematical value of a [`ListError`].
pub enum ListFault {
    Enumeration(Seq<char>),
    Metadata(Seq<char>),
    Config(ConfigFault),
}

impl View for ListError {
    type V = ListFault;

    open spec fn view(&self) -> ListFault {
        match self {
            ListError::Enumeration(m) => ListFault::Enumeration(m@),
            ListError::Metadata(m) => ListFault::Metadata(m@),
            ListError::Config(e) => ListFault::Config(e@),
        }
    }
}

/// The message that stands for a fault of a listing.
pub open spec fn list_fault_message(fault: ListFault) -> Seq<char> {
    match fault {
        ListFault::Enumeration(m) => m,
        ListFault::Metadata(m) => m,
        ListFault::Config(e) => fault_message(e),
    }
}

impl ListError {
    /// The message to show for this error.
    pub fn message(&self) -> (text: String)
        ensures
            text@ == list_fault_message(self@),
    {
        match self {
            ListError::Enumeration(m) => m.clone(),
            ListError::Metadata(m) => m.clone(),
            ListError::Config(e) => e.message(),
        }
    }
}

/// The answer to a request for a listing.
#[derive(Debug, Clone, PartialEq, Eq)]
pub struct FileInfoResponse {
    /// The directory that was listed, with a separator at its end.
    pub path: String,
    /// What went wrong, if anything did.
    pub error: Option<ListError>,
    /// The entries shown, ordered by name.
    pub files: Vec<FileInfo>,
    /// The project's configuration, where the directory has one.
    pub conf: Option<BookConf>,
}

/// The mathematical value of a [`FileInfoResponse`].
pub struct Response {
    pub path: Seq<char>,
    pub error: Option<ListFault>,
    pub files: Seq<Entry>,
    pub conf: Option<Project>,
}

impl View for FileInfoResponse {
    type V = Response;

    open spec fn view(&self) -> Response {
        Response {
            path: self.path@,
            error: match self.error {
                Some(e) => Some(e@),
                None => None,
            },
            files: entries(self.files@),
            conf: match self.conf {
                Some(c) => Some(c@),
                None => None,
            },
        }
    }
}

/// The lookup of child `i` failed, and no lookup before it did.
pub open spec fn fails_first_at(cs: Seq<ChildView>, i: int) -> bool {
    &&& 0 <= i < cs.len()
    &&& cs[i] is Failed
    &&& forall|j: int| 0 <= j < i ==> (#[trigger] cs[j]) is Found
}

/// The message of the first lookup that failed, if any did.
pub open spec fn first_failure(cs: Seq<ChildView>) -> Option<Seq<char>> {
    if exists|i: int| fails_first_at(cs, i) {
        Some(cs[choose|i: int| fails_first_at(cs, i)]->message)
    } else {
        None
    }
}

/// Some child makes the directory look like a book project.
pub open spec fn project_like(cs: Seq<ChildView>) -> bool {
    exists|i: int| 0 <= i < cs.len() && marks_project(#[trigger] cs[i])
}

/// The child was found and is listed.
pub open spec fn is_listed(at_root: bool, child: ChildView) -> bool {
    child matches ChildView::Found { name, .. } && visible(at_root, name)
}

/// The entry that stands for a child that was found.
pub open spec fn entry_of(child: ChildView) -> Entry {
    Entry { folder: child->folder, name: child->name }
}

/// The entries that a listing of the children `cs` shows, in the order of
/// `cs`.
pub open spec fn shown(at_root: bool, cs: Seq<ChildView>) -> Seq<Entry> {
    cs.filter(|c: ChildView| is_listed(at_root, c)).map_values(|c: ChildView| entry_of(c))
}

/// What a pass over the children of a directory gave.
#[derive(Debug, Clone, PartialEq, Eq)]
pub enum Scan {
    /// A lookup failed; nothing is listed.
    Failed { message: String },
    /// The entries to show, in the order of the children, and whether the
    /// directory looks like a book project.
    Listed { files: Vec<FileInfo>, project: bool },
}

/// Passes over the children of a directory: stops at the first lookup that
/// failed, and otherwise collects the entries to show and notes whether any
/// child, shown or not, marks a book project.
pub fn scan(at_root: bool, found: &Vec<Child>) -> (r: Scan)
    ensures
        match first_failure(children(found@)) {
            Some(m) => r matches Scan::Failed { message } && message@ == m,
            None => r matches Scan::Listed { files, project } && entries(files@) == shown(
                at_root,
                children(found@),
            ) && project == project_like(children(found@)),
        },
{
    let ghost cs = children(found@);
    let ghost listed = |c: ChildView| is_listed(at_root, c);
    let ghost to_entry = |c: ChildView| entry_of(c);
    let mut files: Vec<FileInfo> = Vec::new();
    let mut project = false;
    let mut i: usize = 0;
    proof {
        reveal(Seq::filter);
        assert(cs.take(0) =~= Seq::<ChildView>::empty());
        assert(entries(files@) =~= shown(at_root, cs.take(0)));
    }
    while i < found.len()
        invariant
            i <= found@.len(),
            cs == children(found@),
            listed == (|c: ChildView| is_listed(at_root, c)),
            to_entry == (|c: ChildView| entry_of(c)),
            forall|j: int| 0 <= j < i ==> (#[trigger] cs[j]) is Found,
            entries(files@) == cs.take(i as int).filter(listed).map_values(to_entry),
            project == project_like(cs.take(i as int)),
        decreases found@.len() - i,
    {
        let ghost before = cs.take(i as int);
        let ghost now = cs.take(i as int + 1);
        proof {
            assert(now =~= before.push(cs[i as int]));
            before.lemma_filter_push(cs[i as int], listed);
            assert(cs[i as int] == found@[i as int]@);
        }
        match &found[i] {
            Child::Failed { message } => {
                proof {
                    assert(fails_first_at(cs, i as int));
                    let k = choose|k: int| fails_first_at(cs, k);
                    assert(k == i) by {
                        if k < i {
                            assert(cs[k] is Found);
                        } else if k > i {
                            assert(cs[i as int] is Found);
                        }
                    }
                }
                return Scan::Failed { message: message.clone() };
            },
            Child::Found { name, folder } => {
                if marks(&found[i]) {
                    project = true;
                }
                if shows(at_root, name.as_str()) {
                    let ghost old_files = entries(files@);
                    files.push(FileInfo { folder: *folder, name: name.clone() });
                    proof {
                        assert(entries(files@) =~= old_files.push(entry_of(cs[i as int])));
                        assert(now.filter(listed).map_values(to_entry) =~= before.filter(
                            listed,
                        ).map_values(to_entry).push(entry_of(cs[i as int])));
                    }
                }
            },
        }
        proof {
            assert(project == project_like(now)) by {
                if project_like(before) {
                    let k = choose|k: int|
                        0 <= k < before.len() && marks_project(#[trigger] before[k]);
                    assert(marks_project(now[k]));
                }
                if marks_project(cs[i as int]) {
                    assert(marks_project(now[i as int]));
                }
                if project_like(now) {
                    let k = choose|k: int| 0 <= k < now.len() && marks_project(#[trigger] now[k]);
                    if k < i {
                        assert(marks_project(before[k]));
                    }
                }
            }
        }
        i += 1;
    }
    proof {
        assert(cs.take(i as int) =~= cs);
        assert(!exists|k: int| fails_first_at(cs, k));
    }
    Scan::Listed { files, project }
}

} // verus!
