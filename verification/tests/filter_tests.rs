use receivetn::filter::{FilterError, FilterRule};

#[test]
fn exclude_wins_over_include() {
    let rule = FilterRule::compile("foo.*", "bar").unwrap();
    assert!(!rule.matches("bar"));
    let rule = FilterRule::compile("foo.*", ".*bar.*").unwrap();
    assert!(!rule.matches("foobar"));
}

#[test]
fn include_must_match_whole_title() {
    let rule = FilterRule::compile("foo.*", "bar").unwrap();
    assert!(rule.matches("foobaz"));
    assert!(rule.matches("foobar"));
    assert!(!rule.matches("xfoo"));
}

#[test]
fn matching_is_case_insensitive() {
    let rule = FilterRule::compile("foo.*", "").unwrap();
    assert!(rule.matches("FOOBAZ"));
    assert!(rule.matches("Foo"));
}

#[test]
fn empty_include_matches_everything() {
    let rule = FilterRule::compile("", "zzz").unwrap();
    assert!(rule.matches("anything at all"));
    assert!(!rule.matches("zzz"));
}

#[test]
fn exclude_is_anchored_too() {
    let rule = FilterRule::compile("", "bar").unwrap();
    assert!(rule.matches("a bar b"));
    assert!(!rule.matches("bar"));
    assert!(!rule.matches("BAR"));
}

#[test]
fn invalid_include_fragment_is_reported() {
    let err = FilterRule::compile("foo(", "").unwrap_err();
    assert_eq!(err, FilterError::InvalidInclude);
}

#[test]
fn invalid_exclude_fragment_is_reported() {
    let err = FilterRule::compile("foo", "bar(").unwrap_err();
    assert_eq!(err, FilterError::InvalidExclude);
}
