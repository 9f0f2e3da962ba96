use buildtools::versions::VERSION_PATTERN;
use buildtools::{find_matches, get_versions, VersionsError};

fn owned(items: &[&str]) -> Vec<String> {
    items.iter().map(|item| item.to_string()).collect()
}

#[test]
fn versions_are_found_in_order() {
    let listing = "<a href=\"1.21.json\">1.21.json</a>\n<a href=\"1.8.8.json\">1.8.8.json</a>";
    assert_eq!(
        get_versions(listing),
        Ok(owned(&["1.21", "1.21", "1.8.8", "1.8.8"]))
    );
}

#[test]
fn three_parts_are_taken_whole() {
    assert_eq!(get_versions("1.21.1"), Ok(owned(&["1.21.1"])));
    assert_eq!(get_versions("1.21"), Ok(owned(&["1.21"])));
    assert_eq!(get_versions("1.21.1.5"), Ok(owned(&["1.21.1"])));
    assert_eq!(get_versions("10.20.30 4.5"), Ok(owned(&["10.20.30", "4.5"])));
}

#[test]
fn text_without_version_gives_nothing() {
    assert_eq!(get_versions(""), Ok(Vec::new()));
    assert_eq!(get_versions("latest 121 1. .21 a.b"), Ok(Vec::new()));
}

#[test]
fn a_backslash_is_no_dot() {
    assert_eq!(get_versions("1\\x21"), Ok(Vec::new()));
    assert_eq!(get_versions("1x21"), Ok(Vec::new()));
}

#[test]
fn the_version_pattern_is_accepted() {
    assert!(find_matches(VERSION_PATTERN, "").is_ok());
}

#[test]
fn matches_follow_the_pattern_given() {
    assert_eq!(
        find_matches("[a-z]+", "one 2 three"),
        Ok(owned(&["one", "three"]))
    );
    assert_eq!(find_matches("a", "aaa"), Ok(owned(&["a", "a", "a"])));
    assert_eq!(find_matches("aa", "aaa"), Ok(owned(&["aa"])));
}

#[test]
fn a_pattern_that_is_not_accepted_is_an_error() {
    assert_eq!(find_matches("(", "1.21"), Err(VersionsError::Pattern));
    assert_eq!(find_matches("[0-9", "1.21"), Err(VersionsError::Pattern));
}
