use bookshelf::config::{conclude, fallback_candidate, primary_candidate};
use bookshelf::{
    read_book_conf, Answer, BookConf, Candidate, ConfigError, ConfigLookup, Loaded, Request,
};

fn conf(name: &str) -> BookConf {
    BookConf {
        name: name.to_string(),
        author: "Herman Melville".to_string(),
        title: "Moby-Dick".to_string(),
        start: Some("loomings".to_string()),
        start_title: None,
    }
}

fn valid(name: &str) -> Candidate {
    Candidate::Present(Loaded::Valid(conf(name)))
}

#[test]
fn candidates_are_book_yaml_and_assets_book_yaml() {
    assert_eq!(primary_candidate("/books/moby"), "/books/moby/book.yaml");
    assert_eq!(fallback_candidate("/books/moby"), "/books/moby/assets/book.yaml");
    assert_eq!(primary_candidate("/books/moby/"), "/books/moby/book.yaml");
    assert_eq!(fallback_candidate("/books/moby/"), "/books/moby/assets/book.yaml");
    assert_eq!(primary_candidate(""), "book.yaml");
    assert_eq!(fallback_candidate(""), "assets/book.yaml");
}

#[test]
fn a_loaded_candidate_stands_for_its_result() {
    assert_eq!(conclude(Loaded::Valid(conf("a"))), Ok(conf("a")));
    assert_eq!(
        conclude(Loaded::Malformed("missing field `name`".to_string())),
        Err(ConfigError::Parse("missing field `name`".to_string()))
    );
    assert_eq!(
        conclude(Loaded::Unreadable("is a directory".to_string())),
        Err(ConfigError::Read("is a directory".to_string()))
    );
}

#[test]
fn the_first_candidate_is_read_where_it_exists() {
    assert_eq!(read_book_conf("/b", valid("first"), valid("second")), Ok(conf("first")));
    assert_eq!(read_book_conf("/b", valid("first"), Candidate::Missing), Ok(conf("first")));
}

#[test]
fn the_second_candidate_is_read_where_the_first_is_missing() {
    assert_eq!(read_book_conf("/b", Candidate::Missing, valid("second")), Ok(conf("second")));
}

#[test]
fn no_candidate_means_not_found() {
    let result = read_book_conf("/b", Candidate::Missing, Candidate::Missing);
    assert_eq!(result, Err(ConfigError::NotFound));
    assert_eq!(ConfigError::NotFound.message(), "book.yaml not found");
}

#[test]
fn a_broken_first_candidate_is_not_mended_by_the_second() {
    let broken = Candidate::Present(Loaded::Malformed("bad indentation".to_string()));
    let result = read_book_conf("/b", broken, valid("second"));
    assert_eq!(result, Err(ConfigError::Parse("bad indentation".to_string())));
    let unreadable = Candidate::Present(Loaded::Unreadable("permission denied".to_string()));
    let result = read_book_conf("/b", unreadable, valid("second"));
    assert_eq!(result, Err(ConfigError::Read("permission denied".to_string())));
}

#[test]
fn errors_carry_their_messages() {
    assert_eq!(ConfigError::Read("r".to_string()).message(), "r");
    assert_eq!(ConfigError::Parse("p".to_string()).message(), "p");
    assert_eq!(ConfigError::Encode("e".to_string()).message(), "e");
}

#[test]
fn a_lookup_asks_for_the_first_candidate_first() {
    let lookup = ConfigLookup::begin("/b");
    assert_eq!(lookup.request(), Some(Request::Exists("/b/book.yaml".to_string())));
    let lookup = lookup.advance(Answer::Exists(true));
    assert_eq!(lookup.request(), Some(Request::Load("/b/book.yaml".to_string())));
    let lookup = lookup.advance(Answer::Loaded(Loaded::Valid(conf("a"))));
    assert_eq!(lookup.request(), None);
    assert_eq!(lookup.result(), Some(Ok(conf("a"))));
}

#[test]
fn a_lookup_asks_for_the_second_candidate_only_after_the_first_is_missing() {
    let lookup = ConfigLookup::begin("/b/").advance(Answer::Exists(false));
    assert_eq!(lookup.request(), Some(Request::Exists("/b/assets/book.yaml".to_string())));
    let lookup = lookup.advance(Answer::Exists(true));
    assert_eq!(lookup.request(), Some(Request::Load("/b/assets/book.yaml".to_string())));
    let lookup = lookup.advance(Answer::Loaded(Loaded::Malformed("m".to_string())));
    assert_eq!(lookup.result(), Some(Err(ConfigError::Parse("m".to_string()))));
}

#[test]
fn a_lookup_ends_when_both_candidates_are_missing() {
    let lookup =
        ConfigLookup::begin("/b").advance(Answer::Exists(false)).advance(Answer::Exists(false));
    assert_eq!(lookup.request(), None);
    assert_eq!(lookup.result(), Some(Err(ConfigError::NotFound)));
}

#[test]
fn a_lookup_has_no_result_while_a_question_is_pending() {
    assert_eq!(ConfigLookup::begin("/b").result(), None);
    assert_eq!(ConfigLookup::begin("/b").advance(Answer::Exists(true)).result(), None);
    assert_eq!(ConfigLookup::begin("/b").advance(Answer::Exists(false)).result(), None);
}

#[test]
fn a_lookup_ignores_answers_to_questions_it_did_not_ask() {
    let lookup = ConfigLookup::begin("/b")
        .advance(Answer::Loaded(Loaded::Valid(conf("a"))))
        .advance(Answer::Home(None))
        .advance(Answer::Children(Ok(Vec::new())));
    assert_eq!(lookup, ConfigLookup::Primary { dir: "/b".to_string() });
    let lookup = lookup.advance(Answer::Exists(true)).advance(Answer::Exists(false));
    assert_eq!(lookup, ConfigLookup::Load { path: "/b/book.yaml".to_string() });
    let lookup = lookup.advance(Answer::Loaded(Loaded::Valid(conf("a"))));
    let lookup =
        lookup.advance(Answer::Exists(false)).advance(Answer::Loaded(Loaded::Valid(conf("b"))));
    assert_eq!(lookup.result(), Some(Ok(conf("a"))));
}
