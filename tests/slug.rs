use ruinaio::slug::{check_slug, join, slugify, split, Error};
use std::borrow::Cow;

#[test]
fn test_slugify() {
    assert_eq!(slugify("Help").unwrap(), "Help");
    assert_eq!(slugify("TheWest").unwrap(), "TheWest");

    assert_eq!(slugify("Princess Piggie").unwrap(), "PrincessPiggie");
    assert_eq!(slugify("Three Word Phrase").unwrap(), "ThreeWordPhrase");
    assert_eq!(slugify("lowercase randy").unwrap(), "LowercaseRandy");
    assert_eq!(slugify("three lowercase words").unwrap(), "ThreeLowercaseWords");

    assert_eq!(slugify("Kebab-Case").unwrap(), "KebabCase");
    assert_eq!(slugify("kebab-case").unwrap(), "KebabCase");
    assert_eq!(slugify("Snake_Case").unwrap(), "SnakeCase");
    assert_eq!(slugify("snake_case").unwrap(), "SnakeCase");

    assert_eq!(
        slugify("The quick brown fox, jumped over the lazy dog.").unwrap(),
        "TheQuickBrownFoxJumpedOverTheLazyDog"
    );
}

#[test]
fn slugify_empty_fails() {
    assert_eq!(slugify(""), Err(Error::Empty));
}

#[test]
fn slugify_too_long_fails_with_length() {
    let long = "a".repeat(129);
    assert_eq!(slugify(&long), Err(Error::Length(129)));
    let just_fits = "a".repeat(128);
    let expected = format!("A{}", "a".repeat(127));
    assert_eq!(slugify(&just_fits).unwrap(), expected.as_str());
}

#[test]
fn slugify_counts_the_result_not_the_input() {
    let spaced = "a ".repeat(100);
    assert_eq!(slugify(&spaced).unwrap(), "A".repeat(100).as_str());
}

#[test]
fn slugify_strips_slashes_and_other_characters() {
    let out = slugify("a/b c!").unwrap();
    assert_eq!(out, "ABC");
    assert!(out.chars().all(|c| c.is_ascii_alphanumeric()));
    assert_eq!(slugify("--leading and trailing--").unwrap(), "LeadingAndTrailing");
    assert_eq!(slugify("digits 9lives x2").unwrap(), "Digits9livesX2");
    assert_eq!(slugify("caf\u{e9} au lait").unwrap(), "CafAuLait");
}

#[test]
fn slugify_of_no_alphanumeric_is_empty() {
    assert_eq!(slugify("!!!").unwrap(), "");
}

#[test]
fn slugify_is_idempotent() {
    for s in ["Princess Piggie", "snake_case", "x", "The quick brown fox, jumped over the lazy dog."] {
        let once = slugify(s).unwrap().into_owned();
        let twice = slugify(&once).unwrap();
        assert_eq!(twice, once.as_str());
    }
}

#[test]
fn slugify_borrows_when_nothing_changes() {
    assert!(matches!(slugify("AlreadyASlug").unwrap(), Cow::Borrowed("AlreadyASlug")));
    assert!(matches!(slugify("lower").unwrap(), Cow::Owned(_)));
}

#[test]
fn check_slug_accepts_slugs() {
    assert_eq!(check_slug("Foo/Bar9"), Ok("Foo/Bar9"));
    assert_eq!(check_slug(""), Ok(""));
}

#[test]
fn check_slug_reports_first_invalid_column() {
    assert_eq!(check_slug("Foo Bar-Baz"), Err(Error::InvalidChar(' ', 4)));
    assert_eq!(check_slug("_"), Err(Error::InvalidChar('_', 1)));
}

#[test]
fn split_at_last_slash() {
    assert_eq!(split("Foo/Bar/Baz"), (Some("Foo/Bar/"), "Baz"));
    assert_eq!(split("Baz"), (None, "Baz"));
    assert_eq!(split("Foo/"), (Some("Foo/"), ""));
    assert_eq!(split(""), (None, ""));
}

#[test]
fn split_undoes_join() {
    let joined = join(Some("Foo/Bar/"), "Baz");
    assert_eq!(joined, "Foo/Bar/Baz");
    assert_eq!(split(&joined), (Some("Foo/Bar/"), "Baz"));

    let alone = join(None, "Baz");
    assert_eq!(alone, "Baz");
    assert_eq!(split(&alone), (None, "Baz"));
}

#[test]
fn join_undoes_split() {
    for s in ["A/B/C", "C", "A/", ""] {
        let (ns, fragment) = split(s);
        assert_eq!(join(ns, fragment), s);
    }
}
