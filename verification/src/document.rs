//! A configuration as the members of a document: the keys under which its
//! fields are written, in the order in which they are written.

use vstd::prelude::*;
use crate::config::{BookConf, Project};

verus! {

/// The mathematical value of a list of members: each key with its text, or
/// with `None` where the member is null.
pub open spec fn members_view(members: Seq<(String, Option<String>)>) -> Seq<
    (Seq<char>, Option<Seq<char>>),
> {
    Seq::new(
        members.len(),
        |i: int|
            (
                members[i].0@,
                match members[i].1 {
                    Some(text) => Some(text@),
                    None => None,
                },
            ),
    )
}

/// The members of a configuration: `name`, `author`, `title`, `start` and
/// `start_title`, in this order, the last two null where they are unset.
pub open spec fn conf_members(conf: Project) -> Seq<(Seq<char>, Option<Seq<char>>)> {
    seq![
        ("name"@, Some(conf.name)),
        ("author"@, Some(conf.author)),
        ("title"@, Some(conf.title)),
        ("start"@, conf.start),
        ("start_title"@, conf.start_title),
    ]
}

fn copy_of(text: &Option<String>) -> (copy: Option<String>)
    ensures
        copy is Some == text is Some,
        copy matches Some(t) ==> t@ == text->0@,
{
    match text {
        Some(t) => Some(t.clone()),
        None => None,
    }
}

impl BookConf {
    /// The members of this configuration, in the order of the document.
    pub fn members(&self) -> (members: Vec<(String, Option<String>)>)
        ensures
            members_view(members@) == conf_members(self@),
    {
        let mut members: Vec<(String, Option<String>)> = Vec::new();
        members.push((String::from_str("name"), Some(self.name.clone())));
        members.push((String::from_str("author"), Some(self.author.clone())));
        members.push((String::from_str("title"), Some(self.title.clone())));
        members.push((String::from_str("start"), copy_of(&self.start)));
        members.push((String::from_str("start_title"), copy_of(&self.start_title)));
        assert(members_view(members@) =~= conf_members(self@));
        members
    }
}

} // verus!
