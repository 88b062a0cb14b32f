use bookshelf::order::precedes;
use bookshelf::sorting::sort_by_name;
use bookshelf::FileInfo;

fn file(name: &str) -> FileInfo {
    FileInfo { folder: false, name: name.to_string() }
}

fn folder(name: &str) -> FileInfo {
    FileInfo { folder: true, name: name.to_string() }
}

fn names(files: &[FileInfo]) -> Vec<&str> {
    files.iter().map(|f| f.name.as_str()).collect()
}

#[test]
fn every_name_precedes_itself() {
    for name in ["", "a", "book.yaml", "\u{e9}t\u{e9}"] {
        assert!(precedes(name, name));
    }
}

#[test]
fn a_prefix_precedes_its_extensions() {
    assert!(precedes("", "a"));
    assert!(!precedes("a", ""));
    assert!(precedes("a", "ab"));
    assert!(!precedes("ab", "a"));
}

#[test]
fn the_first_differing_character_decides() {
    assert!(precedes("abc", "abd"));
    assert!(!precedes("abd", "abc"));
    assert!(precedes("abz", "ac"));
}

#[test]
fn capitals_precede_small_letters_and_digits_precede_both() {
    assert!(precedes("Zed", "apple"));
    assert!(!precedes("apple", "Zed"));
    assert!(precedes("9", "A"));
    assert!(precedes("A", "a"));
}

#[test]
fn names_beyond_ascii_follow_their_code_points() {
    assert!(precedes("z", "\u{e9}"));
    assert!(precedes("\u{e9}", "\u{65e5}"));
    assert!(precedes("\u{65e5}", "\u{1f600}"));
    assert!(!precedes("\u{1f600}", "\u{ffff}"));
}

#[test]
fn precedes_agrees_with_the_order_of_strings() {
    let samples = ["", "a", "A", "ab", "b", "B", "1", ".x", "\u{e9}", "e\u{301}", "\u{65e5}", "~"];
    for a in samples {
        for b in samples {
            assert_eq!(precedes(a, b), a <= b, "{:?} against {:?}", a, b);
        }
    }
}

#[test]
fn of_two_names_one_precedes_the_other() {
    let samples = ["", "a", "A", "ab", "\u{e9}"];
    for a in samples {
        for b in samples {
            assert!(precedes(a, b) || precedes(b, a));
            if precedes(a, b) && precedes(b, a) {
                assert_eq!(a, b);
            }
        }
    }
}

#[test]
fn sorting_nothing_gives_nothing() {
    assert_eq!(sort_by_name(Vec::new()), Vec::new());
}

#[test]
fn sorting_orders_by_name() {
    let sorted = sort_by_name(vec![file("pear"), folder("apple"), file("Zed"), file("fig")]);
    assert_eq!(sorted, vec![file("Zed"), folder("apple"), file("fig"), file("pear")]);
}

#[test]
fn sorting_keeps_sorted_input() {
    let sorted = sort_by_name(vec![file("a"), file("b"), file("c")]);
    assert_eq!(names(&sorted), vec!["a", "b", "c"]);
}

#[test]
fn sorting_reverses_reversed_input() {
    let sorted = sort_by_name(vec![file("c"), file("b"), file("a")]);
    assert_eq!(names(&sorted), vec!["a", "b", "c"]);
}

#[test]
fn sorting_keeps_the_order_of_equal_names() {
    let sorted = sort_by_name(vec![file("b"), folder("a"), file("a"), folder("b"), file("a")]);
    assert_eq!(sorted, vec![folder("a"), file("a"), file("a"), file("b"), folder("b")]);
}

#[test]
fn sorting_agrees_with_a_stable_sort_of_strings() {
    let input = ["m", "Z", "a", "m", "\u{e9}", "10", "2", "ab", "a", ""];
    let entry = |(i, name): (usize, &&str)| FileInfo { folder: i % 2 == 0, name: name.to_string() };
    let mut expected: Vec<FileInfo> = input.iter().enumerate().map(entry).collect();
    let given: Vec<FileInfo> = input.iter().enumerate().map(entry).collect();
    expected.sort_by(|a, b| a.name.cmp(&b.name));
    assert_eq!(sort_by_name(given), expected);
}
