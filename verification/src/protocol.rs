//! What a listing or a lookup asks of the file system, and what it is told.
//!
//! The library reads no file itself. It says what it needs to know next, the
//! caller finds that out and hands it back, until a result is reached.

use vstd::prelude::*;
use crate::config::{Loaded, LoadedView};
use crate::paths::opt_text;
use crate::entry::{children, Child, ChildView};

verus! {

/// A question to the file system.
#[derive(Debug, Clone, PartialEq, Eq)]
pub enum Request {
    /// Which is the user's home directory?
    Home,
    /// Which children has the directory at this path?
    Children(String),
    /// Does anything exist at this path?
    Exists(String),
    /// What comes of reading the file at this path as a configuration?
    Load(String),
}

/// The mathematical value of a [`Request`].
pub enum RequestView {
    Home,
    Children(Seq<char>),
    Exists(Seq<char>),
    Load(Seq<char>),
}

impl View for Request {
    type V = RequestView;

    open spec fn view(&self) -> RequestView {
        match self {
            Request::Home => RequestView::Home,
            Request::Children(path) => RequestView::Children(path@),
            Request::Exists(path) => RequestView::Exists(path@),
            Request::Load(path) => RequestView::Load(path@),
        }
    }
}

/// The mathematical value of an optional request.
pub open spec fn request_view(request: Option<Request>) -> Option<RequestView> {
    match request {
        Some(r) => Some(r@),
        None => None,
    }
}

/// The file system's answer to a [`Request`].
#[derive(Debug, PartialEq, Eq)]
pub enum Answer {
    /// The home directory, or `None` where the system knows none.
    Home(Option<String>),
    /// The children of the directory in the order in which the file system
    /// gave them, or the message of the failure to enumerate them.
    Children(Result<Vec<Child>, String>),
    /// Whether the path exists.
    Exists(bool),
    /// What reading and parsing the file gave.
    Loaded(Loaded),
}

/// The mathematical value of an [`Answer`].
pub enum AnswerView {
    Home(Option<Seq<char>>),
    Children(Result<Seq<ChildView>, Seq<char>>),
    Exists(bool),
    Loaded(LoadedView),
}

/// The mathematical value of what enumerating a directory gave.
pub open spec fn dir_view(dir: Result<Vec<Child>, String>) -> Result<Seq<ChildView>, Seq<char>> {
    match dir {
        Ok(found) => Ok(children(found@)),
        Err(message) => Err(message@),
    }
}

impl View for Answer {
    type V = AnswerView;

    open spec fn view(&self) -> AnswerView {
        match self {
            Answer::Home(home) => AnswerView::Home(opt_text(*home)),
            Answer::Children(dir) => AnswerView::Children(dir_view(*dir)),
            Answer::Exists(exists) => AnswerView::Exists(*exists),
            Answer::Loaded(loaded) => AnswerView::Loaded(loaded@),
        }
    }
}

/// A file system as far as the library asks about it: the home directory,
/// and for each path what enumerating it gives, whether it exists, and what
/// loading it as a configuration gives.
pub struct World {
    pub home: Option<Seq<char>>,
    pub children: spec_fn(Seq<char>) -> Result<Seq<ChildView>, Seq<char>>,
    pub exists: spec_fn(Seq<char>) -> bool,
    pub load: spec_fn(Seq<char>) -> LoadedView,
}

/// The answer that `world` gives to `request`.
pub open spec fn answer_of(world: World, request: RequestView) -> AnswerView {
    match request {
        RequestView::Home => AnswerView::Home(world.home),
        RequestView::Children(path) => AnswerView::Children((world.children)(path)),
        RequestView::Exists(path) => AnswerView::Exists((world.exists)(path)),
        RequestView::Load(path) => AnswerView::Loaded((world.load)(path)),
    }
}

} // verus!
