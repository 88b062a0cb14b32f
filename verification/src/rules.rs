//! The rules on names: which entries a listing hides, and which children make
//! a directory look like a book project.

use vstd::prelude::*;
use crate::entry::{Child, ChildView};
use crate::paths::same_text;

verus! {

/// Whether the character has Unicode's property `Lowercase`, as
/// `char::is_lowercase` of std reports it.
pub uninterp spec fn unicode_lowercase(c: char) -> bool;

/// `char::is_lowercase` of std: says whether `c` has Unicode's property
/// `Lowercase`. Nothing is claimed here of which characters have it.
#[verifier::external_body]
fn has_lowercase_property(c: char) -> (r: bool)
    ensures
        r == unicode_lowercase(c),
{
    c.is_lowercase()
}

/// The character is a lowercase letter: within ASCII one of `a` to `z`,
/// beyond ASCII a character with Unicode's property `Lowercase`.
pub open spec fn is_lowercase_letter(c: char) -> bool {
    if (c as u32) < 0x80 {
        'a' <= c && c <= 'z'
    } else {
        unicode_lowercase(c)
    }
}

/// The name begins with a dot.
pub open spec fn is_hidden(name: Seq<char>) -> bool {
    name.len() > 0 && name[0] == '.'
}

/// The name begins with a lowercase letter.
pub open spec fn starts_lowercase(name: Seq<char>) -> bool {
    name.len() > 0 && is_lowercase_letter(name[0])
}

/// An entry of this name is listed. Names that begin with a dot never are;
/// in the root of the file system, names that begin with a lowercase letter
/// are not either.
pub open spec fn visible(at_root: bool, name: Seq<char>) -> bool {
    !is_hidden(name) && !(at_root && starts_lowercase(name))
}

/// The child makes its directory look like a book project: it is called
/// `book.yaml`, or it is a directory called `assets`.
pub open spec fn marks_project(child: ChildView) -> bool {
    child matches ChildView::Found { name, folder } && (name == "book.yaml"@ || (folder && name
        == "assets"@))
}

/// Decides whether `c` is a lowercase letter.
pub fn lowercase_letter(c: char) -> (r: bool)
    ensures
        r == is_lowercase_letter(c),
{
    let code: u32 = c as u32;
    if code < 0x80 {
        0x61 <= code && code <= 0x7a
    } else {
        has_lowercase_property(c)
    }
}

/// Decides whether an entry called `name` is listed.
pub fn shows(at_root: bool, name: &str) -> (r: bool)
    ensures
        r == visible(at_root, name@),
{
    if name.is_empty() {
        true
    } else {
        let first = name.get_char(0);
        first != '.' && !(at_root && lowercase_letter(first))
    }
}

/// Decides whether `child` makes its directory look like a book project.
pub fn marks(child: &Child) -> (r: bool)
    ensures
        r == marks_project(child@),
{
    match child {
        Child::Found { name, folder } => {
            same_text(name.as_str(), "book.yaml") || (*folder && same_text(name.as_str(), "assets"))
        },
        Child::Failed { .. } => false,
    }
}

} // verus!
