use receivetn::detect::detect;
use receivetn::feed::FeedItem;
use receivetn::filter::FilterRule;
use receivetn::timestamp::Timestamp;

fn at(secs: i64) -> Timestamp {
    Timestamp { secs, nanos: 0, offset_secs: 0 }
}

fn item(title: &str, link: &str, secs: i64) -> FeedItem {
    FeedItem {
        title: Some(title.to_string()),
        link: Some(link.to_string()),
        published: at(secs),
    }
}

#[test]
fn watermark_advances_past_filtered_items() {
    let rule = FilterRule::compile("keep.*", "").unwrap();
    let items = vec![item("keep this", "http://e/t1", 100), item("drop this", "http://e/t2", 200)];
    let r = detect(&items, &at(50), &rule);
    assert_eq!(r.urls, vec!["http://e/t1".to_string()]);
    assert_eq!(r.new_watermark, at(200));
}

#[test]
fn detection_is_deterministic() {
    let rule = FilterRule::compile("a.*", ".*x").unwrap();
    let items = vec![
        item("abc", "http://e/1", 10),
        item("ax", "http://e/2", 20),
        item("zzz", "http://e/3", 30),
    ];
    let first = detect(&items, &at(5), &rule);
    let second = detect(&items, &at(5), &rule);
    assert_eq!(first.urls, second.urls);
    assert_eq!(first.new_watermark, second.new_watermark);
    assert_eq!(first.urls, vec!["http://e/1".to_string()]);
    assert_eq!(first.new_watermark, at(30));
}

#[test]
fn items_at_or_before_the_watermark_are_ignored() {
    let rule = FilterRule::compile("", "zzz").unwrap();
    let items = vec![item("old", "http://e/old", 100), item("new", "http://e/new", 101)];
    let r = detect(&items, &at(100), &rule);
    assert_eq!(r.urls, vec!["http://e/new".to_string()]);
    assert_eq!(r.new_watermark, at(101));
}

#[test]
fn missing_link_is_skipped_but_still_counts_toward_the_watermark() {
    let rule = FilterRule::compile("", "zzz").unwrap();
    let linkless = FeedItem { title: Some("late".to_string()), link: None, published: at(300) };
    let items = vec![item("early", "http://e/a", 100), linkless];
    let r = detect(&items, &at(50), &rule);
    assert_eq!(r.urls, vec!["http://e/a".to_string()]);
    assert_eq!(r.new_watermark, at(300));
}

#[test]
fn missing_title_counts_as_empty() {
    let rule = FilterRule::compile("", "zzz").unwrap();
    let untitled = FeedItem { title: None, link: Some("http://e/u".to_string()), published: at(10) };
    let r = detect(&vec![untitled], &at(1), &rule);
    assert_eq!(r.urls, vec!["http://e/u".to_string()]);

    let must_match = FilterRule::compile("x.*", "").unwrap();
    let untitled = FeedItem { title: None, link: Some("http://e/u".to_string()), published: at(10) };
    let r = detect(&vec![untitled], &at(1), &must_match);
    assert!(r.urls.is_empty());
    assert_eq!(r.new_watermark, at(10));
}

#[test]
fn empty_feed_keeps_the_watermark() {
    let rule = FilterRule::compile("", "").unwrap();
    let r = detect(&vec![], &at(42), &rule);
    assert!(r.urls.is_empty());
    assert_eq!(r.new_watermark, at(42));
}

#[test]
fn urls_come_out_in_document_order() {
    let rule = FilterRule::compile("", "zzz").unwrap();
    let items = vec![
        item("c", "http://e/c", 30),
        item("a", "http://e/a", 10),
        item("b", "http://e/b", 20),
    ];
    let r = detect(&items, &at(0), &rule);
    assert_eq!(
        r.urls,
        vec!["http://e/c".to_string(), "http://e/a".to_string(), "http://e/b".to_string()]
    );
    assert_eq!(r.new_watermark, at(30));
}
