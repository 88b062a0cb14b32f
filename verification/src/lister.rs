//! Listing a directory, one question at a time.

use vstd::prelude::*;
use crate::config::{
    fallback_path, found, primary_path, result_view, BookConf, Candidate, ConfigError, ConfigFault,
    Project,
};
use crate::entry::{entries, Child, ChildView, Entry, FileInfo};
use crate::listing::{
    first_failure, project_like, scan, shown, FileInfoResponse, ListError, ListFault, Response,
    Scan,
};
use crate::lookup::{candidate_at, lookup_request, lookup_step, ConfigLookup, LookupView};
use crate::paths::{
    at_root, ensure_separator, is_root, normalized, opt_text, root, root_path, with_separator,
};
use crate::protocol::{
    answer_of, dir_view, request_view, Answer, AnswerView, Request, RequestView, World,
};
use crate::sorting::{sort_by_name, sorted};

verus! {

/// The listing of `path` that shows nothing because of `fault`.
pub open spec fn failed(path: Seq<char>, fault: ListFault) -> Response {
    Response { path, error: Some(fault), files: Seq::empty(), conf: None }
}

/// The listing of `path` that shows `files` ordered by name. Where a
/// configuration was looked up, its result goes with them: the configuration
/// itself, or the fault in its place.
pub open spec fn completed(
    path: Seq<char>,
    files: Seq<Entry>,
    conf: Option<Result<Project, ConfigFault>>,
) -> Response {
    Response {
        path,
        error: match conf {
            Some(Err(fault)) => Some(ListFault::Config(fault)),
            _ => None,
        },
        files: sorted(files),
        conf: match conf {
            Some(Ok(project)) => Some(project),
            _ => None,
        },
    }
}

/// The listing of the directory `path`, given what enumerating it gave and
/// what a lookup of its configuration gives.
///
/// A failure to enumerate, or the first failed lookup of a child, ends it
/// with nothing shown. Otherwise the visible children are shown ordered by
/// name, and the configuration is looked up if and only if some child marks
/// a book project.
pub open spec fn listed(
    path: Seq<char>,
    dir: Result<Seq<ChildView>, Seq<char>>,
    conf: Result<Project, ConfigFault>,
) -> Response {
    match dir {
        Err(message) => failed(path, ListFault::Enumeration(message)),
        Ok(cs) => match first_failure(cs) {
            Some(message) => failed(path, ListFault::Metadata(message)),
            None => completed(
                path,
                shown(is_root(path), cs),
                if project_like(cs) {
                    Some(conf)
                } else {
                    None
                },
            ),
        },
    }
}

/// The listing that a request for `path` gets from `world`.
pub open spec fn listing_of(path: Seq<char>, world: World) -> Response {
    let dir = normalized(path, world.home);
    listed(
        dir,
        (world.children)(dir),
        found(candidate_at(world, primary_path(dir)), candidate_at(world, fallback_path(dir))),
    )
}

/// A listing at the point it has reached.
#[derive(Debug, PartialEq, Eq)]
pub enum Listing {
    /// The request named no path; the home directory has to be known.
    Home,
    /// The children of `path` have to be enumerated.
    Children { path: String },
    /// `files` are the entries to show. The directory looks like a project,
    /// and the lookup of its configuration is under way.
    Config { path: String, files: Vec<FileInfo>, lookup: ConfigLookup },
    /// The listing is over.
    Done { response: FileInfoResponse },
}

/// The mathematical value of a [`Listing`].
pub enum ListingView {
    Home,
    Children { path: Seq<char> },
    Config { path: Seq<char>, files: Seq<Entry>, lookup: LookupView },
    Done { response: Response },
}

impl View for Listing {
    type V = ListingView;

    open spec fn view(&self) -> ListingView {
        match self {
            Listing::Home => ListingView::Home,
            Listing::Children { path } => ListingView::Children { path: path@ },
            Listing::Config { path, files, lookup } => ListingView::Config {
                path: path@,
                files: entries(files@),
                lookup: lookup@,
            },
            Listing::Done { response } => ListingView::Done { response: response@ },
        }
    }
}

/// Where a listing of `path` starts: with the question for the home
/// directory where `path` is empty, else with the children of `path`.
pub open spec fn listing_begin(path: Seq<char>) -> ListingView {
    if path.len() == 0 {
        ListingView::Home
    } else {
        ListingView::Children { path: with_separator(path) }
    }
}

/// What the listing has to know next; nothing once it is over.
pub open spec fn listing_request(state: ListingView) -> Option<RequestView> {
    match state {
        ListingView::Home => Some(RequestView::Home),
        ListingView::Children { path } => Some(RequestView::Children(path)),
        ListingView::Config { lookup, .. } => lookup_request(lookup),
        ListingView::Done { .. } => None,
    }
}

/// The listing once the children of `path` are known.
pub open spec fn after_children(
    path: Seq<char>,
    dir: Result<Seq<ChildView>, Seq<char>>,
) -> ListingView {
    match dir {
        Err(message) => ListingView::Done {
            response: failed(path, ListFault::Enumeration(message)),
        },
        Ok(cs) => match first_failure(cs) {
            Some(message) => ListingView::Done {
                response: failed(path, ListFault::Metadata(message)),
            },
            None => if project_like(cs) {
                ListingView::Config {
                    path,
                    files: shown(is_root(path), cs),
                    lookup: LookupView::Primary { dir: path },
                }
            } else {
                ListingView::Done { response: completed(path, shown(is_root(path), cs), None) }
            },
        },
    }
}

/// The listing once its lookup has taken a step.
pub open spec fn after_lookup(
    path: Seq<char>,
    files: Seq<Entry>,
    lookup: LookupView,
) -> ListingView {
    match lookup {
        LookupView::Done { result } => ListingView::Done {
            response: completed(path, files, Some(result)),
        },
        _ => ListingView::Config { path, files, lookup },
    }
}

/// The listing after `answer`. An answer to a question that was not asked
/// changes nothing.
pub open spec fn listing_step(state: ListingView, answer: AnswerView) -> ListingView {
    match (state, answer) {
        (ListingView::Home, AnswerView::Home(home)) => ListingView::Children {
            path: with_separator(root_path(home)),
        },
        (ListingView::Children { path }, AnswerView::Children(dir)) => after_children(path, dir),
        (ListingView::Config { path, files, lookup }, _) => after_lookup(
            path,
            files,
            lookup_step(lookup, answer),
        ),
        _ => state,
    }
}

/// The listing after at most `steps` questions, each answered by `world`.
pub open spec fn listing_run(state: ListingView, world: World, steps: nat) -> ListingView
    decreases steps,
{
    match listing_request(state) {
        Some(request) if steps > 0 => listing_run(
            listing_step(state, answer_of(world, request)),
            world,
            (steps - 1) as nat,
        ),
        _ => state,
    }
}

/// Builds the listing that shows nothing because of `error`.
fn fail(path: String, error: ListError) -> (response: FileInfoResponse)
    ensures
        response@ == failed(path@, error@),
{
    let response = FileInfoResponse { path, error: Some(error), files: Vec::new(), conf: None };
    assert(response@.files =~= Seq::<Entry>::empty());
    response
}

/// Builds the listing that shows `files`, with the result of the lookup
/// where there was one.
fn complete(
    path: String,
    files: Vec<FileInfo>,
    conf: Option<Result<BookConf, ConfigError>>,
) -> (response: FileInfoResponse)
    ensures
        response@ == completed(
            path@,
            entries(files@),
            match conf {
                Some(result) => Some(result_view(result)),
                None => None,
            },
        ),
{
    let files = sort_by_name(files);
    match conf {
        Some(Ok(project)) => FileInfoResponse { path, error: None, files, conf: Some(project) },
        Some(Err(error)) => FileInfoResponse {
            path,
            error: Some(ListError::Config(error)),
            files,
            conf: None,
        },
        None => FileInfoResponse { path, error: None, files, conf: None },
    }
}

impl Listing {
    /// Starts the listing of `path`; the empty path stands for the default
    /// directory.
    pub fn begin(path: &str) -> (state: Listing)
        ensures
            state@ == listing_begin(path@),
    {
        if path.is_empty() {
            Listing::Home
        } else {
            Listing::Children { path: ensure_separator(String::from_str(path)) }
        }
    }

    /// What the listing has to know next, or `None` once it is over.
    pub fn request(&self) -> (request: Option<Request>)
        ensures
            request_view(request) == listing_request(self@),
    {
        match self {
            Listing::Home => Some(Request::Home),
            Listing::Children { path } => Some(Request::Children(path.clone())),
            Listing::Config { lookup, .. } => lookup.request(),
            Listing::Done { .. } => None,
        }
    }

    /// Takes the answer to the pending question and moves on.
    pub fn advance(self, answer: Answer) -> (next: Listing)
        ensures
            next@ == listing_step(self@, answer@),
    {
        match self {
            Listing::Home => match answer {
                Answer::Home(home) => Listing::Children { path: ensure_separator(root(home)) },
                _ => Listing::Home,
            },
            Listing::Children { path } => match answer {
                Answer::Children(Err(message)) => Listing::Done {
                    response: fail(path, ListError::Enumeration(message)),
                },
                Answer::Children(Ok(found)) => match scan(at_root(path.as_str()), &found) {
                    Scan::Failed { message } => Listing::Done {
                        response: fail(path, ListError::Metadata(message)),
                    },
                    Scan::Listed { files, project } => if project {
                        let lookup = ConfigLookup::begin(path.as_str());
                        Listing::Config { path, files, lookup }
                    } else {
                        Listing::Done { response: complete(path, files, None) }
                    },
                },
                _ => Listing::Children { path },
            },
            Listing::Config { path, files, lookup } => match lookup.advance(answer) {
                ConfigLookup::Done { result } => Listing::Done {
                    response: complete(path, files, Some(result)),
                },
                lookup => Listing::Config { path, files, lookup },
            },
            Listing::Done { response } => Listing::Done { response },
        }
    }

    /// The finished listing, or `None` while a question is pending.
    pub fn response(self) -> (response: Option<FileInfoResponse>)
        ensures
            match self@ {
                ListingView::Done { response: r } => response matches Some(got) && got@ == r,
                _ => response is None,
            },
    {
        match self {
            Listing::Done { response } => Some(response),
            _ => None,
        }
    }
}

/// A listing that is answered by `world` is over after at most five
/// questions, and the outcome is [`listing_of`].
pub proof fn lemma_listing_result(path: Seq<char>, world: World)
    ensures
        listing_run(listing_begin(path), world, 5) == (ListingView::Done {
            response: listing_of(path, world),
        }),
{
    reveal_with_fuel(listing_run, 6);
}

/// The listing of `path`, given the home directory, what enumerating the
/// directory gave, and all that the file system holds at the directory's two
/// candidate paths.
pub fn list(
    path: &str,
    home: Option<String>,
    dir: Result<Vec<Child>, String>,
    primary: Candidate,
    fallback: Candidate,
) -> (response: FileInfoResponse)
    ensures
        response@ == listed(
            normalized(path@, opt_text(home)),
            dir_view(dir),
            found(primary@, fallback@),
        ),
{
    let state = Listing::begin(path);
    let state = state.advance(Answer::Home(home));
    let state = state.advance(Answer::Children(dir));
    let state = match primary {
        Candidate::Present(loaded) => state.advance(Answer::Exists(true)).advance(
            Answer::Loaded(loaded),
        ),
        Candidate::Missing => {
            let state = state.advance(Answer::Exists(false));
            match fallback {
                Candidate::Present(loaded) => state.advance(Answer::Exists(true)).advance(
                    Answer::Loaded(loaded),
                ),
                Candidate::Missing => state.advance(Answer::Exists(false)),
            }
        },
    };
    state.response().unwrap()
}

} // verus!
