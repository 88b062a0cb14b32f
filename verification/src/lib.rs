//! Listing the directories of a book-authoring workspace, and finding the
//! configuration of a book project.
//!
//! The library touches no file. A [`Listing`] or a [`ConfigLookup`] says what
//! it has to know next as a [`Request`]; the caller answers from the file
//! system, and after a few answers the result is there. [`list`] and
//! [`read_book_conf`] give the same results for callers that hold all the
//! answers beforehand.

pub mod config;
pub mod document;
pub mod entry;
pub mod epub;
pub mod laws;
pub mod lister;
pub mod listing;
pub mod lookup;
pub mod order;
pub mod paths;
pub mod protocol;
pub mod reply;
pub mod rules;
pub mod save;
pub mod sorting;

pub use config::{BookConf, Candidate, ConfigError, Loaded};
pub use entry::{Child, FileInfo};
pub use epub::{make_epub, EpubInfo, ErrorMessage};
pub use lister::{list, Listing};
pub use listing::{FileInfoResponse, ListError};
pub use lookup::{read_book_conf, ConfigLookup};
pub use paths::root;
pub use protocol::{Answer, Request};
pub use reply::{get_book_conf, reply};
pub use save::{save_encoded, write_book_conf, Write};
