//! Directory paths as text: the separator at their end, the default
//! directory, and the path of a file inside a directory.

use vstd::prelude::*;

verus! {

/// The characters of an optional text.
pub open spec fn opt_text(text: Option<String>) -> Option<Seq<char>> {
    match text {
        Some(t) => Some(t@),
        None => None,
    }
}

/// The path ends with the separator `/`.
pub open spec fn ends_with_separator(path: Seq<char>) -> bool {
    path.len() > 0 && path.last() == '/'
}

/// The path with a separator at its end: itself where it has one, else with
/// one appended.
pub open spec fn with_separator(path: Seq<char>) -> Seq<char> {
    if ends_with_separator(path) {
        path
    } else {
        path.push('/')
    }
}

/// The default directory: the home directory with a separator at its end, or
/// the root of the file system where no home directory is known.
pub open spec fn root_path(home: Option<Seq<char>>) -> Seq<char> {
    match home {
        Some(dir) => with_separator(dir),
        None => seq!['/'],
    }
}

/// The directory that a request for `path` lists: the default directory for
/// the empty path, and in each case with a separator at its end.
pub open spec fn normalized(path: Seq<char>, home: Option<Seq<char>>) -> Seq<char> {
    if path.len() == 0 {
        with_separator(root_path(home))
    } else {
        with_separator(path)
    }
}

/// The path is the root of the file system.
pub open spec fn is_root(path: Seq<char>) -> bool {
    path == seq!['/']
}

/// The path of `name` inside `dir`. A separator is put between the two unless
/// `dir` ends with one; the empty `dir` stands for the current directory and
/// gets none.
pub open spec fn joined(dir: Seq<char>, name: Seq<char>) -> Seq<char> {
    if dir.len() == 0 || ends_with_separator(dir) {
        dir + name
    } else {
        dir.push('/') + name
    }
}

/// Decides whether two texts are the same.
pub fn same_text(a: &str, b: &str) -> (r: bool)
    ensures
        r == (a@ == b@),
{
    String::from_str(a) == String::from_str(b)
}

/// Decides whether `path` ends with the separator.
pub fn has_separator(path: &str) -> (r: bool)
    ensures
        r == ends_with_separator(path@),
{
    let n: usize = path.unicode_len();
    if n == 0 {
        false
    } else {
        path.get_char(n - 1) == '/'
    }
}

/// Appends a separator to `path` unless it ends with one.
pub fn ensure_separator(path: String) -> (r: String)
    ensures
        r@ == with_separator(path@),
{
    let mut r = path;
    if !has_separator(r.as_str()) {
        proof {
            reveal_strlit("/");
            assert("/"@ =~= seq!['/']);
        }
        r.append("/");
        assert(r@ =~= path@.push('/'));
    }
    r
}

/// The default directory, for the home directory that the system reports
/// (`None` where it reports none).
pub fn root(home: Option<String>) -> (r: String)
    ensures
        r@ == root_path(opt_text(home)),
{
    match home {
        Some(dir) => ensure_separator(dir),
        None => {
            proof {
                reveal_strlit("/");
                assert("/"@ =~= seq!['/']);
            }
            String::from_str("/")
        },
    }
}

/// Decides whether `path` is the root of the file system.
pub fn at_root(path: &str) -> (r: bool)
    ensures
        r == is_root(path@),
{
    proof {
        reveal_strlit("/");
        assert("/"@ =~= seq!['/']);
    }
    same_text(path, "/")
}

/// The path of `name` inside `dir`.
pub fn join(dir: &str, name: &str) -> (r: String)
    ensures
        r@ == joined(dir@, name@),
{
    let mut path = String::from_str(dir);
    if !dir.is_empty() && !has_separator(dir) {
        proof {
            reveal_strlit("/");
            assert("/"@ =~= seq!['/']);
        }
        path.append("/");
        assert(path@ =~= dir@.push('/'));
    }
    path.append(name);
    path
}

} // verus!
