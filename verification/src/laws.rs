//! What holds of every listing and every lookup.

use vstd::prelude::*;
use crate::config::{found, outcome, primary_path, CandidateView, ConfigFault, LoadedView, Project};
use crate::entry::{ChildView, Entry};
use crate::lister::{listed, listing_begin, listing_of, listing_run, ListingView};
use crate::listing::{entry_of, first_failure, is_listed, project_like, shown};
use crate::lookup::{lemma_lookup_result, lookup_run, LookupView};
use crate::paths::{ends_with_separator, is_root, normalized, root_path};
use crate::protocol::World;
use crate::rules::{is_hidden, starts_lowercase, visible};
use crate::save::save_path;
use crate::sorting::{lemma_sorted, lemma_sorted_permutes, sorted, sorted_by_name};

verus! {

/// The directory that is listed always ends with a separator.
pub proof fn lemma_normalized_ends_with_separator(path: Seq<char>, home: Option<Seq<char>>)
    ensures
        ends_with_separator(normalized(path, home)),
{
}

/// A request for the empty path gets the listing that a request for the
/// default directory gets.
pub proof fn lemma_empty_path_lists_root(world: World)
    ensures
        normalized(Seq::empty(), world.home) == normalized(root_path(world.home), world.home),
        listing_of(Seq::empty(), world) == listing_of(root_path(world.home), world),
{
}

/// The entries collected from the children are the entries of exactly those
/// children that were found and are visible.
pub proof fn lemma_shown_members(at_root: bool, cs: Seq<ChildView>, e: Entry)
    ensures
        shown(at_root, cs).contains(e) <==> exists|i: int|
            0 <= i < cs.len() && is_listed(at_root, #[trigger] cs[i]) && entry_of(cs[i]) == e,
    decreases cs.len(),
{
    let listed = |c: ChildView| is_listed(at_root, c);
    let to_entry = |c: ChildView| entry_of(c);
    reveal(Seq::filter);
    if cs.len() > 0 {
        let init = cs.drop_last();
        let last = cs.last();
        lemma_shown_members(at_root, init, e);
        assert(cs =~= init.push(last));
        init.lemma_filter_push(last, listed);
        if is_listed(at_root, last) {
            assert(shown(at_root, cs) =~= shown(at_root, init).push(entry_of(last)));
            assert(shown(at_root, cs)[shown(at_root, init).len() as int] == entry_of(last));
        } else {
            assert(shown(at_root, cs) =~= shown(at_root, init));
        }
        if shown(at_root, cs).contains(e) {
            let k = choose|k: int| 0 <= k < shown(at_root, cs).len() && shown(at_root, cs)[k] == e;
            if k < shown(at_root, init).len() {
                assert(shown(at_root, init)[k] == e);
                let i = choose|i: int|
                    0 <= i < init.len() && is_listed(at_root, #[trigger] init[i]) && entry_of(
                        init[i],
                    ) == e;
                assert(cs[i] == init[i]);
            } else {
                assert(cs[cs.len() - 1] == last);
            }
        }
        if exists|i: int|
            0 <= i < cs.len() && is_listed(at_root, #[trigger] cs[i]) && entry_of(cs[i]) == e {
            let i = choose|i: int|
                0 <= i < cs.len() && is_listed(at_root, #[trigger] cs[i]) && entry_of(cs[i]) == e;
            if i < init.len() {
                assert(init[i] == cs[i]);
                let k = choose|k: int|
                    0 <= k < shown(at_root, init).len() && shown(at_root, init)[k] == e;
                assert(shown(at_root, cs)[k] == e);
            }
        }
    }
}

/// A listing whose enumeration did not fail shows an entry if and only if
/// the directory has a child of that name and kind and the name is visible:
/// it does not begin with a dot, nor, in the root of the file system, with a
/// lowercase letter.
pub proof fn lemma_listing_shows_visible(
    path: Seq<char>,
    cs: Seq<ChildView>,
    conf: Result<Project, ConfigFault>,
    name: Seq<char>,
    folder: bool,
)
    requires
        first_failure(cs) is None,
    ensures
        listed(path, Ok(cs), conf).files.contains(Entry { folder, name }) <==> (cs.contains(
            ChildView::Found { name, folder },
        ) && visible(is_root(path), name)),
{
    let e = Entry { folder, name };
    let c = ChildView::Found { name, folder };
    let at_root = is_root(path);
    let collected = shown(at_root, cs);
    assert(listed(path, Ok(cs), conf).files == sorted(collected));
    lemma_sorted_permutes(collected);
    collected.to_multiset_ensures();
    sorted(collected).to_multiset_ensures();
    assert(collected.contains(e) <==> collected.to_multiset().count(e) > 0);
    assert(sorted(collected).contains(e) <==> sorted(collected).to_multiset().count(e) > 0);
    lemma_shown_members(at_root, cs, e);
    if collected.contains(e) {
        let i = choose|i: int|
            0 <= i < cs.len() && is_listed(at_root, #[trigger] cs[i]) && entry_of(cs[i]) == e;
        assert(cs[i] == c);
    }
    if cs.contains(c) && visible(at_root, name) {
        let i = choose|i: int| 0 <= i < cs.len() && cs[i] == c;
        assert(is_listed(at_root, cs[i]) && entry_of(cs[i]) == e);
    }
}

/// In the root of the file system a listing shows the children whose names
/// begin neither with a dot nor with a lowercase letter, and no others.
pub proof fn lemma_root_listing_hides_lowercase(
    cs: Seq<ChildView>,
    conf: Result<Project, ConfigFault>,
    name: Seq<char>,
    folder: bool,
)
    requires
        first_failure(cs) is None,
    ensures
        listed(seq!['/'], Ok(cs), conf).files.contains(Entry { folder, name }) <==> (cs.contains(
            ChildView::Found { name, folder },
        ) && !is_hidden(name) && !starts_lowercase(name)),
{
    lemma_listing_shows_visible(seq!['/'], cs, conf, name, folder);
}

/// A name that begins with one of the letters `A` to `Z` or with one of the
/// digits `0` to `9` is visible in every directory, the root included.
pub proof fn lemma_capitals_and_digits_visible(name: Seq<char>, at_root: bool)
    requires
        name.len() > 0,
        ('A' <= name[0] && name[0] <= 'Z') || ('0' <= name[0] && name[0] <= '9'),
    ensures
        visible(at_root, name),
{
}

/// What holds of every listing: it names the directory that was listed; its
/// entries are ordered by name; where the enumeration or the lookup of a
/// child failed it shows no entry and has no configuration; it has a
/// configuration if and only if nothing failed, some child marks a book
/// project and the lookup of the configuration succeeded, and then it reports
/// no error; and where only that lookup failed the entries are all there.
pub proof fn lemma_listing_invariant(
    path: Seq<char>,
    dir: Result<Seq<ChildView>, Seq<char>>,
    conf: Result<Project, ConfigFault>,
)
    ensures
        ({
            let r = listed(path, dir, conf);
            &&& r.path == path
            &&& sorted_by_name(r.files)
            &&& (r.error matches Some(fault) && !(fault is Config)) ==> r.files.len() == 0
                && r.conf is None
            &&& r.conf is Some <==> (dir matches Ok(cs) && first_failure(cs) is None
                && project_like(cs) && conf is Ok)
            &&& r.conf is Some ==> r.error is None
            &&& (r.error matches Some(fault) && fault is Config) ==> (dir matches Ok(cs)
                && r.files == sorted(shown(is_root(path), cs)))
        }),
{
    match dir {
        Ok(cs) => {
            lemma_sorted(shown(is_root(path), cs));
        },
        Err(_) => {},
    }
}

/// The first candidate that exists decides alone: a configuration file
/// inside `assets` stands for a missing `book.yaml`, and is not looked at
/// where `book.yaml` exists.
pub proof fn lemma_first_candidate_wins(loaded: LoadedView, other: CandidateView)
    ensures
        found(CandidateView::Missing, CandidateView::Present(loaded)) == outcome(loaded),
        found(CandidateView::Present(loaded), other) == outcome(loaded),
{
}

/// A configuration that was saved for `dir`, and that loading the saved file
/// gives back, is what a lookup for `dir` finds, whatever else the directory
/// holds.
pub proof fn lemma_saved_config_is_found(dir: Seq<char>, world: World, conf: Project)
    requires
        (world.exists)(save_path(dir)),
        (world.load)(save_path(dir)) == LoadedView::Valid(conf),
    ensures
        lookup_run(LookupView::Primary { dir }, world, 3) == (LookupView::Done {
            result: Ok(conf),
        }),
{
    lemma_lookup_result(dir, world);
}

/// A lookup whose first candidate exists is over after two questions: the
/// second candidate is never asked for.
pub proof fn lemma_existing_candidate_needs_no_fallback(dir: Seq<char>, world: World)
    requires
        (world.exists)(primary_path(dir)),
    ensures
        lookup_run(LookupView::Primary { dir }, world, 2) is Done,
{
    reveal_with_fuel(lookup_run, 3);
}

/// A directory that cannot be enumerated, or does not look like a book
/// project, is listed without any lookup of a configuration: the listing is
/// over once the home directory, where the path is empty, and the children
/// are known.
pub proof fn lemma_plain_directory_needs_no_lookup(path: Seq<char>, world: World)
    requires
        (world.children)(normalized(path, world.home)) matches Ok(cs) ==> !project_like(cs),
    ensures
        listing_run(listing_begin(path), world, 2) == (ListingView::Done {
            response: listing_of(path, world),
        }),
{
    reveal_with_fuel(listing_run, 3);
}

} // verus!
