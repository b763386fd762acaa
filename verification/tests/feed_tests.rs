use receivetn::feed::{parse_feed, FeedError};

fn feed_bytes() -> Vec<u8> {
    let xml = "<?xml version=\"1.0\"?>\
<rss version=\"2.0\"><channel>\
<title>demo</title><link>http://e/</link><description>d</description>\
<item><title>alpha</title><link>http://e/a.torrent</link>\
<pubDate>Fri, 01 Jan 2021 00:00:00 +0000</pubDate></item>\
<item><title>undated</title><link>http://e/b.torrent</link></item>\
<item><title>badly dated</title><link>http://e/c.torrent</link>\
<pubDate>tomorrow-ish</pubDate></item>\
<item><title>linkless</title>\
<pubDate>Sat, 02 Jan 2021 00:00:00 +0000</pubDate></item>\
</channel></rss>";
    xml.as_bytes().to_vec()
}

#[test]
fn items_with_parseable_dates_survive() {
    let items = parse_feed(&feed_bytes()).unwrap();
    assert_eq!(items.len(), 2);
    assert_eq!(items[0].title.as_deref(), Some("alpha"));
    assert_eq!(items[0].link.as_deref(), Some("http://e/a.torrent"));
    assert_eq!(items[0].published.secs, 1609459200);
    assert_eq!(items[1].title.as_deref(), Some("linkless"));
    assert!(items[1].link.is_none());
    assert_eq!(items[1].published.secs, 1609545600);
}

#[test]
fn malformed_documents_are_one_error() {
    assert_eq!(parse_feed(&b"not xml at all".to_vec()).unwrap_err(), FeedError::Malformed);
    assert_eq!(parse_feed(&Vec::new()).unwrap_err(), FeedError::Malformed);
}
