use receivetn::config::{
    flag_on, resolve_globals, resolve_profile, RawSettings, DEFAULT_PARALLEL_DOWNLOADS,
    DEFAULT_SLEEP_SECS,
};
use receivetn::filter::FilterError;

fn empty_settings() -> RawSettings {
    RawSettings {
        verbose: None,
        parallel_downloads: None,
        path: None,
        run_forever: None,
        check_timer_minutes: None,
        match_fragment: None,
        match_false_fragment: None,
    }
}

#[test]
fn flags_are_true_one_or_on() {
    assert!(flag_on("true"));
    assert!(flag_on("1"));
    assert!(flag_on("on"));
    assert!(!flag_on("false"));
    assert!(!flag_on("yes"));
    assert!(!flag_on(""));
    assert!(!flag_on("True"));
}

#[test]
fn globals_fall_back_to_the_fixed_defaults() {
    let g = resolve_globals(false, empty_settings());
    assert!(g.verbose);
    assert_eq!(g.parallel_downloads, DEFAULT_PARALLEL_DOWNLOADS);
    assert_eq!(g.path, "./");
    assert!(g.quit);
    assert_eq!(g.sleep_secs, DEFAULT_SLEEP_SECS);
    assert_eq!(g.match_fragment, "");
    assert_eq!(g.match_false_fragment, "");
}

#[test]
fn global_settings_are_interpreted() {
    let mut raw = empty_settings();
    raw.verbose = Some("off".to_string());
    raw.parallel_downloads = Some(4);
    raw.path = Some("/tmp/feeds".to_string());
    raw.run_forever = Some("on".to_string());
    raw.check_timer_minutes = Some(2);
    let g = resolve_globals(false, raw);
    assert!(!g.verbose);
    assert_eq!(g.parallel_downloads, 4);
    assert_eq!(g.path, "/tmp/feeds");
    assert!(!g.quit);
    assert_eq!(g.sleep_secs, 120);
}

#[test]
fn the_command_line_verbose_flag_wins() {
    let mut raw = empty_settings();
    raw.verbose = Some("off".to_string());
    let g = resolve_globals(true, raw);
    assert!(g.verbose);
}

#[test]
fn a_profile_overrides_the_globals() {
    let globals = resolve_globals(false, empty_settings());
    let mut raw = empty_settings();
    raw.run_forever = Some("1".to_string());
    raw.check_timer_minutes = Some(1);
    raw.parallel_downloads = Some(0);
    raw.match_fragment = Some("foo.*".to_string());
    let p = resolve_profile(
        false,
        "alpha".to_string(),
        "http://e/feed".to_string(),
        raw,
        &globals,
    )
    .unwrap();
    assert_eq!(p.name, "alpha");
    assert_eq!(p.url, "http://e/feed");
    assert!(!p.quit);
    assert_eq!(p.sleep_secs, 60);
    assert_eq!(p.parallel_downloads, 1);
    assert_eq!(p.path, "./");
    assert!(p.verbose);
    assert!(p.filter.matches("foobar"));
    assert!(!p.filter.matches("xfoo"));
}

#[test]
fn a_bad_profile_pattern_is_reported() {
    let globals = resolve_globals(false, empty_settings());
    let mut raw = empty_settings();
    raw.match_false_fragment = Some("(".to_string());
    let r = resolve_profile(
        false,
        "alpha".to_string(),
        "http://e/feed".to_string(),
        raw,
        &globals,
    );
    match r {
        Ok(_) => panic!("a bad exclude fragment must be rejected"),
        Err(e) => assert_eq!(e, FilterError::InvalidExclude),
    }
}

#[test]
fn a_huge_check_timer_saturates() {
    let mut raw = empty_settings();
    raw.check_timer_minutes = Some(u64::MAX / 2);
    let g = resolve_globals(false, raw);
    assert_eq!(g.sleep_secs, u64::MAX);
}
