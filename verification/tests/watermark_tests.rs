use receivetn::timestamp::Timestamp;
use receivetn::watermark::{render_watermark, saved_watermark, should_persist, state_file_name};

#[test]
fn state_file_is_named_from_the_profile() {
    assert_eq!(state_file_name("alpha"), "state_alpha.dat");
    assert_eq!(state_file_name(""), "state_.dat");
}

#[test]
fn missing_state_falls_back_to_the_sentinel() {
    assert_eq!(saved_watermark(None), Timestamp::sentinel());
}

#[test]
fn garbage_state_falls_back_to_the_sentinel() {
    assert_eq!(saved_watermark(Some("not a date")), Timestamp::sentinel());
    assert_eq!(saved_watermark(Some("")), Timestamp::sentinel());
}

#[test]
fn saved_state_is_trimmed_before_parsing() {
    let t = saved_watermark(Some("  2021-01-01T00:00:00+00:00\n"));
    assert_eq!(t.secs, 1609459200);
    assert_eq!(t.offset_secs, 0);
}

#[test]
fn only_a_strictly_newer_watermark_is_persisted() {
    let old = saved_watermark(Some("2021-01-01T00:00:00+00:00"));
    let same = saved_watermark(Some("2021-01-01T01:00:00+01:00"));
    let newer = saved_watermark(Some("2021-01-01T00:00:01+00:00"));
    assert!(!should_persist(&old, &old));
    assert!(!should_persist(&old, &same));
    assert!(should_persist(&old, &newer));
    assert!(!should_persist(&newer, &old));
}

#[test]
fn the_sentinel_renders_back_to_its_text() {
    let text = render_watermark(&Timestamp::sentinel()).unwrap();
    assert_eq!(text, "0000-01-28T07:55:39-05:00");
}
