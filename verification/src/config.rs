//! The project's configuration record, and how it is found: in `book.yaml`
//! directly inside the project directory, else in `assets/book.yaml`.

use vstd::prelude::*;
use crate::paths::{join, joined, opt_text};

verus! {

/// The configuration of a book project, as `book.yaml` holds it.
#[derive(Debug, Clone, PartialEq, Eq)]
pub struct BookConf {
    pub name: String,
    pub author: String,
    pub title: String,
    pub start: Option<String>,
    pub start_title: Option<String>,
}

/// The mathematical value of a [`BookConf`].
pub struct Project {
    pub name: Seq<char>,
    pub author: Seq<char>,
    pub title: Seq<char>,
    pub start: Option<Seq<char>>,
    pub start_title: Option<Seq<char>>,
}

impl View for BookConf {
    type V = Project;

    open spec fn view(&self) -> Project {
        Project {
            name: self.name@,
            author: self.author@,
            title: self.title@,
            start: opt_text(self.start),
            start_title: opt_text(self.start_title),
        }
    }
}

/// Why no configuration could be had, or none could be written.
#[derive(Debug, Clone, PartialEq, Eq)]
pub enum ConfigError {
    /// Neither candidate file exists.
    NotFound,
    /// The file exists but could not be read; the message is the reader's.
    Read(String),
    /// The file's text is no valid configuration; the message is the
    /// parser's.
    Parse(String),
    /// The record could not be turned into text; the message is the
    /// encoder's.
    Encode(String),
}

/// The mathematical value of a [`ConfigError`].
pub enum ConfigFault {
    NotFound,
    Read(Seq<char>),
    Parse(Seq<char>),
    Encode(Seq<char>),
}

impl View for ConfigError {
    type V = ConfigFault;

    open spec fn view(&self) -> ConfigFault {
        match self {
            ConfigError::NotFound => ConfigFault::NotFound,
            ConfigError::Read(m) => ConfigFault::Read(m@),
            ConfigError::Parse(m) => ConfigFault::Parse(m@),
            ConfigError::Encode(m) => ConfigFault::Encode(m@),
        }
    }
}

/// The message that stands for a fault: the fixed text for a missing file,
/// and otherwise the message that the fault carries.
pub open spec fn fault_message(fault: ConfigFault) -> Seq<char> {
    match fault {
        ConfigFault::NotFound => "book.yaml not found"@,
        ConfigFault::Read(m) => m,
        ConfigFault::Parse(m) => m,
        ConfigFault::Encode(m) => m,
    }
}

impl ConfigError {
    /// The message to show for this error.
    pub fn message(&self) -> (text: String)
        ensures
            text@ == fault_message(self@),
    {
        match self {
            ConfigError::NotFound => String::from_str("book.yaml not found"),
            ConfigError::Read(m) => m.clone(),
            ConfigError::Parse(m) => m.clone(),
            ConfigError::Encode(m) => m.clone(),
        }
    }
}

/// What reading and parsing an existing candidate file gave.
#[derive(Debug, Clone, PartialEq, Eq)]
pub enum Loaded {
    /// The file could not be read.
    Unreadable(String),
    /// The file was read, but its text is no valid configuration.
    Malformed(String),
    /// The file holds this configuration.
    Valid(BookConf),
}

/// The mathematical value of a [`Loaded`].
pub enum LoadedView {
    Unreadable(Seq<char>),
    Malformed(Seq<char>),
    Valid(Project),
}

impl View for Loaded {
    type V = LoadedView;

    open spec fn view(&self) -> LoadedView {
        match self {
            Loaded::Unreadable(m) => LoadedView::Unreadable(m@),
            Loaded::Malformed(m) => LoadedView::Malformed(m@),
            Loaded::Valid(conf) => LoadedView::Valid(conf@),
        }
    }
}

/// All that the file system holds at one candidate path.
#[derive(Debug, Clone, PartialEq, Eq)]
pub enum Candidate {
    /// No file is there.
    Missing,
    /// A file is there, and this came of loading it.
    Present(Loaded),
}

/// The mathematical value of a [`Candidate`].
pub enum CandidateView {
    Missing,
    Present(LoadedView),
}

impl View for Candidate {
    type V = CandidateView;

    open spec fn view(&self) -> CandidateView {
        match self {
            Candidate::Missing => CandidateView::Missing,
            Candidate::Present(loaded) => CandidateView::Present(loaded@),
        }
    }
}

/// The mathematical value of the result of a lookup.
pub open spec fn result_view(result: Result<BookConf, ConfigError>) -> Result<
    Project,
    ConfigFault,
> {
    match result {
        Ok(conf) => Ok(conf@),
        Err(error) => Err(error@),
    }
}

/// The first candidate: `book.yaml` directly inside `dir`.
pub open spec fn primary_path(dir: Seq<char>) -> Seq<char> {
    joined(dir, "book.yaml"@)
}

/// The second candidate: `book.yaml` inside the directory `assets` of `dir`.
pub open spec fn fallback_path(dir: Seq<char>) -> Seq<char> {
    joined(joined(dir, "assets"@), "book.yaml"@)
}

/// The result that a loaded candidate stands for.
pub open spec fn outcome(loaded: LoadedView) -> Result<Project, ConfigFault> {
    match loaded {
        LoadedView::Unreadable(m) => Err(ConfigFault::Read(m)),
        LoadedView::Malformed(m) => Err(ConfigFault::Parse(m)),
        LoadedView::Valid(conf) => Ok(conf),
    }
}

/// The result of a lookup, given what the file system holds at the two
/// candidate paths: the first candidate that exists decides alone, and where
/// none exists the lookup fails with `NotFound`.
pub open spec fn found(primary: CandidateView, fallback: CandidateView) -> Result<
    Project,
    ConfigFault,
> {
    match primary {
        CandidateView::Present(loaded) => outcome(loaded),
        CandidateView::Missing => match fallback {
            CandidateView::Present(loaded) => outcome(loaded),
            CandidateView::Missing => Err(ConfigFault::NotFound),
        },
    }
}

/// The path of the first candidate file of `dir`.
pub fn primary_candidate(dir: &str) -> (path: String)
    ensures
        path@ == primary_path(dir@),
{
    join(dir, "book.yaml")
}

/// The path of the second candidate file of `dir`.
pub fn fallback_candidate(dir: &str) -> (path: String)
    ensures
        path@ == fallback_path(dir@),
{
    let assets = join(dir, "assets");
    join(assets.as_str(), "book.yaml")
}

/// Turns a loaded candidate into the result that it stands for.
pub fn conclude(loaded: Loaded) -> (result: Result<BookConf, ConfigError>)
    ensures
        result_view(result) == outcome(loaded@),
{
    match loaded {
        Loaded::Unreadable(m) => Err(ConfigError::Read(m)),
        Loaded::Malformed(m) => Err(ConfigError::Parse(m)),
        Loaded::Valid(conf) => Ok(conf),
    }
}

} // verus!
