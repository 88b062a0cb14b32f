use bookshelf::paths::{at_root, ensure_separator, has_separator, join};
use bookshelf::root;

#[test]
fn root_without_a_home_is_the_file_system_root() {
    assert_eq!(root(None), "/");
}

#[test]
fn root_appends_a_separator_to_the_home_directory() {
    assert_eq!(root(Some("/home/ada".to_string())), "/home/ada/");
}

#[test]
fn root_keeps_a_home_directory_that_ends_with_a_separator() {
    assert_eq!(root(Some("/home/ada/".to_string())), "/home/ada/");
}

#[test]
fn root_of_an_empty_home_is_a_single_separator() {
    assert_eq!(root(Some(String::new())), "/");
}

#[test]
fn separator_is_recognised_only_at_the_end() {
    assert!(has_separator("/"));
    assert!(has_separator("a/"));
    assert!(!has_separator(""));
    assert!(!has_separator("/a"));
    assert!(!has_separator("a/b"));
    assert!(!has_separator("a\\"));
}

#[test]
fn separator_is_appended_once() {
    assert_eq!(ensure_separator("books".to_string()), "books/");
    assert_eq!(ensure_separator("books/".to_string()), "books/");
    assert_eq!(ensure_separator(String::new()), "/");
    assert_eq!(ensure_separator("b\u{fc}cher".to_string()), "b\u{fc}cher/");
}

#[test]
fn only_a_single_separator_is_the_root() {
    assert!(at_root("/"));
    assert!(!at_root(""));
    assert!(!at_root("//"));
    assert!(!at_root("/a/"));
}

#[test]
fn join_puts_one_separator_between_directory_and_name() {
    assert_eq!(join("/books/moby", "book.yaml"), "/books/moby/book.yaml");
    assert_eq!(join("/books/moby/", "book.yaml"), "/books/moby/book.yaml");
    assert_eq!(join("/", "book.yaml"), "/book.yaml");
}

#[test]
fn join_with_the_empty_directory_is_the_name_alone() {
    assert_eq!(join("", "book.yaml"), "book.yaml");
}

#[test]
fn join_agrees_with_the_paths_of_the_platform() {
    for dir in ["", "/", "a", "a/", "/a/b", "/a/b/", "rel/dir"] {
        let expected = std::path::Path::new(dir).join("assets").join("book.yaml");
        let joined = join(&join(dir, "assets"), "book.yaml");
        assert_eq!(expected.to_str(), Some(joined.as_str()));
    }
}
