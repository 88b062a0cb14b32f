//! Saving a configuration: the text to write, and where it goes.

use vstd::prelude::*;
use crate::config::{primary_candidate, primary_path, BookConf, ConfigError, ConfigFault};
use crate::document::{conf_members, members_view};

verus! {

/// The error of serde_yaml.
#[verifier::external_type_specification]
#[verifier::external_body]
pub struct ExYamlError(serde_yaml::Error);

/// A file to write: its path and its whole text.
#[derive(Debug, Clone, PartialEq, Eq)]
pub struct Write {
    pub path: String,
    pub text: String,
}

/// The mathematical value of a [`Write`].
pub struct WriteView {
    pub path: Seq<char>,
    pub text: Seq<char>,
}

impl View for Write {
    type V = WriteView;

    open spec fn view(&self) -> WriteView {
        WriteView { path: self.path@, text: self.text@ }
    }
}

/// The YAML text that serde_yaml writes for a mapping with these members in
/// this order, each a string or null; `None` where serde_yaml writes none
/// and reports an error instead.
pub uninterp spec fn yaml_mapping(members: Seq<(Seq<char>, Option<Seq<char>>)>) -> Option<
    Seq<char>,
>;

/// Builds a `serde_yaml::Value` that is a mapping with the given members,
/// inserted in their order, each a string or null, and has
/// `serde_yaml::to_string` write it out. The contract claims only that
/// whether the call succeeds, and the text where it does, depend on nothing
/// but the members; it does not say for which members the call succeeds.
#[verifier::external_body]
fn mapping_yaml(members: &Vec<(String, Option<String>)>) -> (result: Result<
    String,
    serde_yaml::Error,
>)
    ensures
        match result {
            Ok(text) => yaml_mapping(members_view(members@)) == Some(text@),
            Err(_) => yaml_mapping(members_view(members@)) is None,
        },
{
    let mut mapping = serde_yaml::Mapping::new();
    for (key, value) in members {
        let value = value.clone().map_or(serde_yaml::Value::Null, serde_yaml::Value::String);
        mapping.insert(serde_yaml::Value::String(key.clone()), value);
    }
    serde_yaml::to_string(&serde_yaml::Value::Mapping(mapping))
}

/// The message of an error of serde_yaml, as its `Display` writes it.
/// Nothing is claimed of the text.
#[verifier::external_body]
fn yaml_error_message(error: &serde_yaml::Error) -> (message: String) {
    error.to_string()
}

/// The file that holds the configuration of `dir` once it is saved: always
/// `book.yaml` directly inside `dir`.
pub open spec fn save_path(dir: Seq<char>) -> Seq<char> {
    primary_path(dir)
}

/// What saving a configuration for `dir` has to do, given what encoding the
/// configuration gave: write the text to [`save_path`], or fail with the
/// encoder's message.
pub open spec fn saving(dir: Seq<char>, encoded: Result<Seq<char>, Seq<char>>) -> Result<
    WriteView,
    ConfigFault,
> {
    match encoded {
        Ok(text) => Ok(WriteView { path: save_path(dir), text }),
        Err(message) => Err(ConfigFault::Encode(message)),
    }
}

/// The mathematical value of the result of an encoding.
pub open spec fn encoding_view(encoded: Result<String, String>) -> Result<Seq<char>, Seq<char>> {
    match encoded {
        Ok(text) => Ok(text@),
        Err(message) => Err(message@),
    }
}

/// The mathematical value of the result of [`write_book_conf`].
pub open spec fn write_view(result: Result<Write, ConfigError>) -> Result<WriteView, ConfigFault> {
    match result {
        Ok(write) => Ok(write@),
        Err(error) => Err(error@),
    }
}

/// Decides what saving a configuration for `folder_path` writes. `encoded`
/// is the configuration as text, or the message of the encoder that failed.
pub fn save_encoded(folder_path: &str, encoded: Result<String, String>) -> (result: Result<
    Write,
    ConfigError,
>)
    ensures
        write_view(result) == saving(folder_path@, encoding_view(encoded)),
{
    match encoded {
        Ok(text) => Ok(Write { path: primary_candidate(folder_path), text }),
        Err(message) => Err(ConfigError::Encode(message)),
    }
}

/// Decides what saving `book_conf` for `folder_path` writes: the YAML
/// mapping of the configuration's members, to `book.yaml` directly inside
/// the directory. It succeeds exactly where serde_yaml writes the mapping
/// out as text, whatever the directory, and fails with `Encode` where
/// serde_yaml reports an error.
pub fn write_book_conf(folder_path: &str, book_conf: &BookConf) -> (result: Result<
    Write,
    ConfigError,
>)
    ensures
        result is Ok <==> yaml_mapping(conf_members(book_conf@)) is Some,
        match result {
            Ok(write) => yaml_mapping(conf_members(book_conf@)) == Some(write@.text)
                && write@.path == save_path(folder_path@),
            Err(error) => error@ is Encode,
        },
{
    let members = book_conf.members();
    let encoded = match mapping_yaml(&members) {
        Ok(text) => Ok(text),
        Err(error) => Err(yaml_error_message(&error)),
    };
    save_encoded(folder_path, encoded)
}

} // verus!
