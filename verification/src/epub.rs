//! The records of an export to EPUB. The export itself is not part of this
//! library.

use vstd::prelude::*;
use crate::config::{BookConf, Project};
use crate::paths::opt_text;

verus! {

/// A failure, as the message to show for it.
#[derive(Debug, Clone, PartialEq, Eq)]
pub struct ErrorMessage {
    pub error: String,
}

impl View for ErrorMessage {
    type V = Seq<char>;

    open spec fn view(&self) -> Seq<char> {
        self.error@
    }
}

/// What an export needs to know of a book: its identifier, its
/// configuration, and the fonts and images that go into it.
#[derive(Debug, Clone, PartialEq, Eq)]
pub struct EpubInfo {
    pub id: Option<String>,
    pub conf: BookConf,
    pub fonts: Option<Vec<String>>,
    pub images: Option<Vec<String>>,
}

/// The mathematical value of an [`EpubInfo`].
pub struct EpubInfoView {
    pub id: Option<Seq<char>>,
    pub conf: Project,
    pub fonts: Option<Seq<Seq<char>>>,
    pub images: Option<Seq<Seq<char>>>,
}

/// The characters of each text of an optional list.
pub open spec fn opt_texts(list: Option<Vec<String>>) -> Option<Seq<Seq<char>>> {
    match list {
        Some(texts) => Some(Seq::new(texts@.len(), |i: int| texts@[i]@)),
        None => None,
    }
}

impl View for EpubInfo {
    type V = EpubInfoView;

    open spec fn view(&self) -> EpubInfoView {
        EpubInfoView {
            id: opt_text(self.id),
            conf: self.conf@,
            fonts: opt_texts(self.fonts),
            images: opt_texts(self.images),
        }
    }
}

/// The export of the book `epub_info` to `path`. No book is exported: the
/// result is the fixed text `Dummy`, whatever the arguments.
pub fn make_epub(path: &String, epub_info: &EpubInfo) -> (r: String)
    ensures
        r@ == "Dummy"@,
{
    String::from_str("Dummy")
}

} // verus!
