use receivetn::timestamp::{format_rfc3339, parse_rfc2822, parse_rfc3339, Timestamp};

#[test]
fn sentinel_is_the_parse_of_its_text() {
    let t = parse_rfc3339("0000-01-28T07:55:39-05:00").unwrap();
    assert_eq!(t, Timestamp::sentinel());
    assert_eq!(t.secs, -62164839861);
    assert_eq!(t.nanos, 0);
    assert_eq!(t.offset_secs, -18000);
}

#[test]
fn rfc3339_epoch_parses_to_zero() {
    let t = parse_rfc3339("1970-01-01T00:00:00+00:00").unwrap();
    assert_eq!(t.secs, 0);
    assert_eq!(t.nanos, 0);
    assert_eq!(t.offset_secs, 0);
}

#[test]
fn rfc3339_keeps_the_offset() {
    let t = parse_rfc3339("2021-01-01T01:00:00+01:00").unwrap();
    assert_eq!(t.secs, 1609459200);
    assert_eq!(t.offset_secs, 3600);
}

#[test]
fn rfc3339_fractional_seconds_land_in_nanos() {
    let t = parse_rfc3339("1970-01-01T00:00:00.250+00:00").unwrap();
    assert_eq!(t.secs, 0);
    assert_eq!(t.nanos, 250_000_000);
}

#[test]
fn rfc2822_parses_like_the_feed_dates() {
    let t = parse_rfc2822("Wed, 18 Feb 2015 23:16:09 GMT").unwrap();
    assert_eq!(t.secs, 1424301369);
    assert_eq!(t.nanos, 0);
    assert_eq!(t.offset_secs, 0);
}

#[test]
fn unparsable_texts_give_none() {
    assert!(parse_rfc3339("not a date").is_none());
    assert!(parse_rfc3339("").is_none());
    assert!(parse_rfc2822("2021-01-01T00:00:00+00:00").is_none());
}

#[test]
fn format_renders_the_epoch() {
    let t = Timestamp { secs: 0, nanos: 0, offset_secs: 0 };
    assert_eq!(format_rfc3339(&t).unwrap(), "1970-01-01T00:00:00+00:00");
}

#[test]
fn format_then_parse_round_trips() {
    let t = parse_rfc2822("Sat, 02 Jan 2021 03:04:05 +0200").unwrap();
    let text = format_rfc3339(&t).unwrap();
    let back = parse_rfc3339(&text).unwrap();
    assert_eq!(back, t);
}

#[test]
fn order_is_by_instant_not_offset() {
    let a = parse_rfc3339("2021-01-01T01:00:00+01:00").unwrap();
    let b = parse_rfc3339("2021-01-01T00:00:00+00:00").unwrap();
    assert!(!a.lt(&b));
    assert!(!b.lt(&a));
    let c = parse_rfc3339("2021-01-01T00:00:01+00:00").unwrap();
    assert!(a.lt(&c));
    assert_eq!(a.later(&c).secs, c.secs);
}
