//! Looking a project's configuration up, one question at a time.

use vstd::prelude::*;
use crate::config::{
    conclude, fallback_candidate, fallback_path, found, outcome, primary_candidate, primary_path,
    result_view, BookConf, Candidate, CandidateView, ConfigError, ConfigFault, Project,
};
use crate::protocol::{answer_of, request_view, Answer, AnswerView, Request, RequestView, World};

verus! {

/// A lookup of the configuration of one directory, at the point it has
/// reached.
#[derive(Debug, PartialEq, Eq)]
pub enum ConfigLookup {
    /// It has to learn whether the first candidate of `dir` exists.
    Primary { dir: String },
    /// The first candidate does not exist; it has to learn whether the second
    /// one does.
    Fallback { dir: String },
    /// The candidate at `path` exists and has to be loaded.
    Load { path: String },
    /// The lookup is over.
    Done { result: Result<BookConf, ConfigError> },
}

/// The mathematical value of a [`ConfigLookup`].
pub enum LookupView {
    Primary { dir: Seq<char> },
    Fallback { dir: Seq<char> },
    Load { path: Seq<char> },
    Done { result: Result<Project, ConfigFault> },
}

impl View for ConfigLookup {
    type V = LookupView;

    open spec fn view(&self) -> LookupView {
        match self {
            ConfigLookup::Primary { dir } => LookupView::Primary { dir: dir@ },
            ConfigLookup::Fallback { dir } => LookupView::Fallback { dir: dir@ },
            ConfigLookup::Load { path } => LookupView::Load { path: path@ },
            ConfigLookup::Done { result } => LookupView::Done { result: result_view(*result) },
        }
    }
}

/// What the lookup has to know next; nothing once it is over.
pub open spec fn lookup_request(state: LookupView) -> Option<RequestView> {
    match state {
        LookupView::Primary { dir } => Some(RequestView::Exists(primary_path(dir))),
        LookupView::Fallback { dir } => Some(RequestView::Exists(fallback_path(dir))),
        LookupView::Load { path } => Some(RequestView::Load(path)),
        LookupView::Done { .. } => None,
    }
}

/// The lookup after `answer`. A candidate that exists is loaded, and what
/// comes of loading it is the result; the second candidate is asked for only
/// where the first does not exist; where neither exists the lookup fails.
/// An answer to a question that was not asked changes nothing.
pub open spec fn lookup_step(state: LookupView, answer: AnswerView) -> LookupView {
    match (state, answer) {
        (LookupView::Primary { dir }, AnswerView::Exists(exists)) => if exists {
            LookupView::Load { path: primary_path(dir) }
        } else {
            LookupView::Fallback { dir }
        },
        (LookupView::Fallback { dir }, AnswerView::Exists(exists)) => if exists {
            LookupView::Load { path: fallback_path(dir) }
        } else {
            LookupView::Done { result: Err(ConfigFault::NotFound) }
        },
        (LookupView::Load { path }, AnswerView::Loaded(loaded)) => LookupView::Done {
            result: outcome(loaded),
        },
        _ => state,
    }
}

/// The lookup after at most `steps` questions, each answered by `world`.
pub open spec fn lookup_run(state: LookupView, world: World, steps: nat) -> LookupView
    decreases steps,
{
    match lookup_request(state) {
        Some(request) if steps > 0 => lookup_run(
            lookup_step(state, answer_of(world, request)),
            world,
            (steps - 1) as nat,
        ),
        _ => state,
    }
}

/// All that `world` holds at `path`.
pub open spec fn candidate_at(world: World, path: Seq<char>) -> CandidateView {
    if (world.exists)(path) {
        CandidateView::Present((world.load)(path))
    } else {
        CandidateView::Missing
    }
}

impl ConfigLookup {
    /// Starts the lookup of the configuration of `dir`.
    pub fn begin(dir: &str) -> (state: ConfigLookup)
        ensures
            state@ == (LookupView::Primary { dir: dir@ }),
    {
        ConfigLookup::Primary { dir: String::from_str(dir) }
    }

    /// What the lookup has to know next, or `None` once it is over.
    pub fn request(&self) -> (request: Option<Request>)
        ensures
            request_view(request) == lookup_request(self@),
    {
        match self {
            ConfigLookup::Primary { dir } => Some(
                Request::Exists(primary_candidate(dir.as_str())),
            ),
            ConfigLookup::Fallback { dir } => Some(
                Request::Exists(fallback_candidate(dir.as_str())),
            ),
            ConfigLookup::Load { path } => Some(Request::Load(path.clone())),
            ConfigLookup::Done { .. } => None,
        }
    }

    /// Takes the answer to the pending question and moves on.
    pub fn advance(self, answer: Answer) -> (next: ConfigLookup)
        ensures
            next@ == lookup_step(self@, answer@),
    {
        match self {
            ConfigLookup::Primary { dir } => match answer {
                Answer::Exists(true) => ConfigLookup::Load {
                    path: primary_candidate(dir.as_str()),
                },
                Answer::Exists(false) => ConfigLookup::Fallback { dir },
                _ => ConfigLookup::Primary { dir },
            },
            ConfigLookup::Fallback { dir } => match answer {
                Answer::Exists(true) => ConfigLookup::Load {
                    path: fallback_candidate(dir.as_str()),
                },
                Answer::Exists(false) => ConfigLookup::Done { result: Err(ConfigError::NotFound) },
                _ => ConfigLookup::Fallback { dir },
            },
            ConfigLookup::Load { path } => match answer {
                Answer::Loaded(loaded) => ConfigLookup::Done { result: conclude(loaded) },
                _ => ConfigLookup::Load { path },
            },
            ConfigLookup::Done { result } => ConfigLookup::Done { result },
        }
    }

    /// The result of the lookup, or `None` while a question is pending.
    pub fn result(self) -> (result: Option<Result<BookConf, ConfigError>>)
        ensures
            match self@ {
                LookupView::Done { result: r } => result matches Some(got) && result_view(got) == r,
                _ => result is None,
            },
    {
        match self {
            ConfigLookup::Done { result } => Some(result),
            _ => None,
        }
    }
}

/// A lookup that is answered by `world` is over after at most three
/// questions, and its result is that of the first candidate that `world`
/// holds.
pub proof fn lemma_lookup_result(dir: Seq<char>, world: World)
    ensures
        lookup_run(LookupView::Primary { dir }, world, 3) == (LookupView::Done {
            result: found(
                candidate_at(world, primary_path(dir)),
                candidate_at(world, fallback_path(dir)),
            ),
        }),
{
    reveal_with_fuel(lookup_run, 4);
}

/// The configuration of `folder_path`, given all that the file system holds
/// at the directory's two candidate paths.
pub fn read_book_conf(folder_path: &str, primary: Candidate, fallback: Candidate) -> (result:
    Result<BookConf, ConfigError>)
    ensures
        result_view(result) == found(primary@, fallback@),
{
    let lookup = ConfigLookup::begin(folder_path);
    let lookup = match primary {
        Candidate::Present(loaded) => lookup.advance(Answer::Exists(true)).advance(
            Answer::Loaded(loaded),
        ),
        Candidate::Missing => {
            let lookup = lookup.advance(Answer::Exists(false));
            match fallback {
                Candidate::Present(loaded) => lookup.advance(Answer::Exists(true)).advance(
                    Answer::Loaded(loaded),
                ),
                Candidate::Missing => lookup.advance(Answer::Exists(false)),
            }
        },
    };
    match lookup.result() {
        Some(result) => result,
        None => Err(ConfigError::NotFound),
    }
}

} // verus!
