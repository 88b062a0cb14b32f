//! The answer to a request for a directory's configuration: a JSON document
//! as text.

use vstd::prelude::*;
use crate::config::{result_view, BookConf, ConfigError, ConfigFault, Project};
use crate::document::{conf_members, members_view};

verus! {

/// JSON writes this character of a string as an escape sequence.
pub open spec fn needs_escape(c: char) -> bool {
    c == '"' || c == '\\' || (c as u32) < 0x20
}

/// No character of `key` needs an escape sequence.
pub open spec fn is_plain(key: Seq<char>) -> bool {
    forall|i: int| 0 <= i < key.len() ==> !needs_escape(#[trigger] key[i])
}

/// The compact JSON text of an object with the one member `key`, whose value
/// is the boolean `value`.
pub open spec fn flag_document(key: Seq<char>, value: bool) -> Seq<char> {
    seq!['{', '"'] + key + seq!['"', ':'] + (if value {
        "true"@
    } else {
        "false"@
    }) + seq!['}']
}

/// The JSON text that serde_json writes for an object with these members in
/// this order, each a string or null.
pub uninterp spec fn json_object(members: Seq<(Seq<char>, Option<Seq<char>>)>) -> Seq<char>;

/// Builds a `serde_json::Value` that is an object with the one member `key`
/// of boolean value, and has serde_json write it out by `to_string`. The
/// contract claims the compact form that serde_json documents: braces, the
/// key in double quotes, a colon, `true` or `false`, and no white space; the
/// key as it stands, given that none of its characters is one that
/// serde_json escapes.
#[verifier::external_body]
fn flag_json(key: &str, value: bool) -> (text: String)
    requires
        is_plain(key@),
    ensures
        text@ == flag_document(key@, value),
{
    let mut object = serde_json::Map::new();
    object.insert(key.to_string(), serde_json::Value::Bool(value));
    serde_json::Value::Object(object).to_string()
}

/// Builds a `serde_json::Value` that is an object with the given members,
/// inserted in their order, each a string or null, and has serde_json write
/// it out by `to_string`. The contract claims only that the text depends on
/// nothing but the members.
#[verifier::external_body]
fn object_json(members: &Vec<(String, Option<String>)>) -> (text: String)
    ensures
        text@ == json_object(members_view(members@)),
{
    let mut object = serde_json::Map::new();
    for (key, value) in members {
        object.insert(key.clone(), serde_json::Value::from(value.clone()));
    }
    serde_json::Value::Object(object).to_string()
}

/// The document that reports a failed lookup: an object with the one member
/// `status`, which is `false`.
pub open spec fn failure_document() -> Seq<char> {
    flag_document("status"@, false)
}

/// The document that answers a request for a configuration. `Ok(..)` holds
/// the configuration as JSON text, and that text is the answer; `Err(..)`
/// says that no configuration could be had, and the answer is the failure
/// document.
pub open spec fn reply_text(found: Result<Seq<char>, ConfigFault>) -> Seq<char> {
    match found {
        Ok(text) => text,
        Err(_) => failure_document(),
    }
}

/// The document that answers a request for a configuration, given the result
/// of the lookup: the configuration's members as a JSON object, or the
/// failure document where the lookup failed.
pub open spec fn config_document(found: Result<Project, ConfigFault>) -> Seq<char> {
    match found {
        Ok(conf) => json_object(conf_members(conf)),
        Err(_) => failure_document(),
    }
}

/// The mathematical value of the argument of [`reply`].
pub open spec fn encoded_view(found: Result<String, ConfigError>) -> Result<
    Seq<char>,
    ConfigFault,
> {
    match found {
        Ok(text) => Ok(text@),
        Err(error) => Err(error@),
    }
}

/// The text that answers a request for a configuration, given the result of
/// the lookup with the configuration already as JSON text.
pub fn reply(found: Result<String, ConfigError>) -> (text: String)
    ensures
        text@ == reply_text(encoded_view(found)),
{
    proof {
        reveal_strlit("status");
    }
    match found {
        Ok(text) => text,
        Err(_) => flag_json("status", false),
    }
}

/// The text that answers a request for a directory's configuration, given
/// the result of the lookup.
pub fn get_book_conf(found: Result<BookConf, ConfigError>) -> (text: String)
    ensures
        text@ == config_document(result_view(found)),
{
    match found {
        Ok(conf) => {
            let members = conf.members();
            reply(Ok(object_json(&members)))
        },
        Err(error) => reply(Err(error)),
    }
}

} // verus!
