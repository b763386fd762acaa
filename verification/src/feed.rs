//! Feed items. The XML feed document is parsed by the rss crate behind a
//! trusted wrapper that hands back each item's title, link and publish date
//! as plain optional strings; turning those raw items into timestamped ones
//! (dropping the items whose date is missing or unparsable, a per-item
//! condition that must not abort the cycle) is verified here.

use vstd::prelude::*;

use crate::timestamp::{rfc2822_timestamp, Timestamp};

verus! {

#[verifier::external_type_specification]
#[verifier::external_body]
pub struct ExRssError(rss::Error);

/// An item as the feed document carries it: every part optional.
#[derive(Debug)]
pub struct RawItem {
    pub title: Option<String>,
    pub link: Option<String>,
    pub pub_date: Option<String>,
}

/// The mathematical shape of a raw item.
#[verifier::ext_equal]
pub ghost struct RawItemModel {
    pub title: Option<Seq<char>>,
    pub link: Option<Seq<char>>,
    pub pub_date: Option<Seq<char>>,
}

impl View for RawItem {
    type V = RawItemModel;

    open spec fn view(&self) -> RawItemModel {
        RawItemModel {
            title: self.title.deep_view(),
            link: self.link.deep_view(),
            pub_date: self.pub_date.deep_view(),
        }
    }
}

impl DeepView for RawItem {
    type V = RawItemModel;

    open spec fn deep_view(&self) -> RawItemModel {
        self.view()
    }
}

/// An item ready for change detection: its publish date parsed.
#[derive(Debug)]
pub struct FeedItem {
    pub title: Option<String>,
    pub link: Option<String>,
    pub published: Timestamp,
}

/// The mathematical shape of a resolved item.
#[verifier::ext_equal]
pub ghost struct ItemModel {
    pub title: Option<Seq<char>>,
    pub link: Option<Seq<char>>,
    pub published: Timestamp,
}

impl View for FeedItem {
    type V = ItemModel;

    open spec fn view(&self) -> ItemModel {
        ItemModel {
            title: self.title.deep_view(),
            link: self.link.deep_view(),
            published: self.published,
        }
    }
}

impl DeepView for FeedItem {
    type V = ItemModel;

    open spec fn deep_view(&self) -> ItemModel {
        self.view()
    }
}

/// The feed document could not be read as a channel of items.
#[derive(Clone, Copy, Debug, PartialEq, Eq, Structural)]
pub enum FeedError {
    Malformed,
}

/// What the rss crate parses a feed document into: the title, link and
/// publish date of each item of the channel, in document order, or `None`
/// where the bytes are no well-formed channel. A function of the bytes
/// alone.
pub uninterp spec fn feed_items(bytes: Seq<u8>) -> Option<Seq<RawItemModel>>;

/// Relies on `rss::Channel::read_from`: it parses the bytes into a channel
/// (or fails on malformed input), and the items' `title`, `link` and
/// `pub_date` fields carry the corresponding item elements in document
/// order; the outcome is a function of the bytes alone.
#[verifier::external_body]
fn read_channel_items(bytes: &Vec<u8>) -> (r: Result<Vec<RawItem>, rss::Error>)
    ensures
        r is Ok <==> feed_items(bytes@) is Some,
        r matches Ok(v) ==> feed_items(bytes@) == Some(v.deep_view()),
{
    match rss::Channel::read_from(&bytes[..]) {
        Ok(channel) => Ok(
            channel.into_items().into_iter().map(
                |it| RawItem { title: it.title, link: it.link, pub_date: it.pub_date },
            ).collect(),
        ),
        Err(e) => Err(e),
    }
}

/// What one raw item contributes once dates are resolved: itself with its
/// parsed date, or nothing where the date is missing or unparsable.
pub open spec fn spec_resolve_one(raw: RawItemModel) -> Seq<ItemModel> {
    match raw.pub_date {
        Some(d) => match rfc2822_timestamp(d) {
            Some(t) => seq![ItemModel { title: raw.title, link: raw.link, published: t }],
            None => Seq::empty(),
        },
        None => Seq::empty(),
    }
}

/// The items of a raw sequence whose dates parse, in order, with their
/// dates attached.
pub open spec fn spec_resolve(raws: Seq<RawItemModel>) -> Seq<ItemModel>
    decreases raws.len(),
{
    if raws.len() == 0 {
        Seq::empty()
    } else {
        spec_resolve(raws.drop_last()) + spec_resolve_one(raws.last())
    }
}

/// Attach a parsed timestamp to every raw item whose `pub_date` is a valid
/// RFC 2822 date; an item with a missing or unparsable date is dropped,
/// not a reason to fail the whole sequence.
pub fn resolve_items(raws: Vec<RawItem>) -> (r: Vec<FeedItem>)
    ensures
        r.deep_view() == spec_resolve(raws.deep_view()),
{
    let ghost all = raws.deep_view();
    let mut out: Vec<FeedItem> = Vec::new();
    let mut i: usize = 0;
    while i < raws.len()
        invariant
            i <= raws.len(),
            all == raws.deep_view(),
            out.deep_view() == spec_resolve(all.take(i as int)),
        decreases raws.len() - i,
    {
        let raw = &raws[i];
        let parsed: Option<Timestamp> = match &raw.pub_date {
            Some(d) => crate::timestamp::parse_rfc2822(d.as_str()),
            None => None,
        };
        proof {
            assert(all.take(i + 1).drop_last() =~= all.take(i as int));
            assert(all.take(i + 1).last() == all[i as int]);
        }
        match parsed {
            Some(t) => {
                let title = match &raw.title {
                    Some(s) => Some(s.clone()),
                    None => None,
                };
                let link = match &raw.link {
                    Some(s) => Some(s.clone()),
                    None => None,
                };
                out.push(FeedItem { title, link, published: t });
                proof {
                    assert(out.deep_view() =~= spec_resolve(all.take(i + 1)));
                }
            },
            None => {
                proof {
                    assert(out.deep_view() =~= spec_resolve(all.take(i + 1)));
                }
            },
        }
        i = i + 1;
    }
    proof {
        assert(all.take(raws.len() as int) =~= all);
    }
    out
}

/// Parse a feed document into timestamped items: the rss crate reads the
/// channel, and items without a parseable date are dropped one by one.
/// Fails exactly where the bytes are no well-formed channel.
pub fn parse_feed(bytes: &Vec<u8>) -> (r: Result<Vec<FeedItem>, FeedError>)
    ensures
        r is Ok <==> feed_items(bytes@) is Some,
        r matches Ok(v) ==> v.deep_view() == spec_resolve(feed_items(bytes@).unwrap()),
        r is Err ==> r == Err::<Vec<FeedItem>, FeedError>(FeedError::Malformed),
{
    match read_channel_items(bytes) {
        Ok(raws) => Ok(resolve_items(raws)),
        Err(_) => Err(FeedError::Malformed),
    }
}

} // verus!
