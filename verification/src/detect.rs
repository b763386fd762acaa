//! Change detection: given the parsed items, the current watermark and the
//! title filter, collect the links of the items that are newer than the
//! watermark and pass the filter, and compute the new watermark as the
//! maximum of the old one and every item's timestamp — also of the items
//! the filter rejects or that carry no link, so that the next cycle never
//! re-inspects them.

use vstd::prelude::*;

use crate::feed::{FeedItem, ItemModel};
use crate::filter::FilterRule;
use crate::timestamp::{spec_later, spec_le, spec_lt, Timestamp};

verus! {

/// The title an item is filtered by: a missing title counts as empty.
pub open spec fn spec_title_or_empty(title: Option<Seq<char>>) -> Seq<char> {
    match title {
        Some(t) => t,
        None => Seq::empty(),
    }
}

/// Whether an item's link belongs in the result: the item is newer than
/// the watermark, carries a link, and its title passes the filter.
pub open spec fn spec_item_selected(it: ItemModel, wm: Timestamp, rule: FilterRule) -> bool {
    spec_lt(wm, it.published) && it.link is Some && rule.spec_matches(
        spec_title_or_empty(it.title),
    )
}

/// The links selected from the items, in document order.
pub open spec fn spec_detect_urls(items: Seq<ItemModel>, wm: Timestamp, rule: FilterRule) -> Seq<
    Seq<char>,
>
    decreases items.len(),
{
    if items.len() == 0 {
        Seq::empty()
    } else {
        spec_detect_urls(items.drop_last(), wm, rule) + if spec_item_selected(
            items.last(),
            wm,
            rule,
        ) {
            seq![items.last().link.unwrap()]
        } else {
            Seq::empty()
        }
    }
}

/// The maximum of the watermark and every item's timestamp, whatever the
/// item's title or link.
pub open spec fn spec_new_watermark(items: Seq<ItemModel>, wm: Timestamp) -> Timestamp
    decreases items.len(),
{
    if items.len() == 0 {
        wm
    } else {
        spec_later(spec_new_watermark(items.drop_last(), wm), items.last().published)
    }
}

/// The new watermark never falls behind the one detection started from.
pub proof fn lemma_new_watermark_ge(items: Seq<ItemModel>, wm: Timestamp)
    ensures
        spec_le(wm, spec_new_watermark(items, wm)),
    decreases items.len(),
{
    if items.len() > 0 {
        lemma_new_watermark_ge(items.drop_last(), wm);
    }
}

/// What one detection pass yields: the links to download and the watermark
/// to persist once they are done.
pub struct Detection {
    pub urls: Vec<String>,
    pub new_watermark: Timestamp,
}

/// One detection pass over the items, in document order.
pub fn detect(items: &Vec<FeedItem>, watermark: &Timestamp, rule: &FilterRule) -> (r: Detection)
    ensures
        r.urls.deep_view() == spec_detect_urls(items.deep_view(), *watermark, *rule),
        r.new_watermark == spec_new_watermark(items.deep_view(), *watermark),
        spec_le(*watermark, r.new_watermark),
{
    let ghost all = items.deep_view();
    let mut urls: Vec<String> = Vec::new();
    let mut wm: Timestamp = *watermark;
    let mut i: usize = 0;
    while i < items.len()
        invariant
            i <= items.len(),
            all == items.deep_view(),
            urls.deep_view() == spec_detect_urls(all.take(i as int), *watermark, *rule),
            wm == spec_new_watermark(all.take(i as int), *watermark),
        decreases items.len() - i,
    {
        let it = &items[i];
        proof {
            assert(all.take(i + 1).drop_last() =~= all.take(i as int));
            assert(all.take(i + 1).last() == all[i as int]);
        }
        if watermark.lt(&it.published) && it.link.is_some() {
            let passes = match &it.title {
                Some(t) => rule.matches(t.as_str()),
                None => {
                    proof {
                        reveal_strlit("");
                        assert(""@ =~= Seq::<char>::empty());
                    }
                    rule.matches("")
                },
            };
            if passes {
                let link = match &it.link {
                    Some(l) => l.clone(),
                    None => unreached(),
                };
                urls.push(link);
            }
        }
        proof {
            assert(urls.deep_view() =~= spec_detect_urls(all.take(i + 1), *watermark, *rule));
        }
        wm = wm.later(&it.published);
        i = i + 1;
    }
    proof {
        assert(all.take(items.len() as int) =~= all);
        lemma_new_watermark_ge(all, *watermark);
    }
    Detection { urls, new_watermark: wm }
}

/// Detection has no hidden state: the links and the new watermark are a
/// function of the items, the starting watermark and the filter alone, so
/// two passes over the same inputs agree in both parts.
pub proof fn lemma_detect_deterministic(
    items: Seq<ItemModel>,
    wm: Timestamp,
    rule: FilterRule,
    first: (Seq<Seq<char>>, Timestamp),
    second: (Seq<Seq<char>>, Timestamp),
)
    requires
        first.0 == spec_detect_urls(items, wm, rule),
        first.1 == spec_new_watermark(items, wm),
        second.0 == spec_detect_urls(items, wm, rule),
        second.1 == spec_new_watermark(items, wm),
    ensures
        first == second,
{
}

/// The watermark advances past an item the filter rejects: with two items
/// at `t1 < t2`, both newer than the watermark, where the first passes the
/// filter and the second does not, only the first item's link is selected
/// and the new watermark is `t2`.
pub proof fn lemma_watermark_passes_filtered(
    first: ItemModel,
    second: ItemModel,
    wm: Timestamp,
    rule: FilterRule,
)
    requires
        spec_lt(wm, first.published),
        spec_lt(first.published, second.published),
        first.link is Some,
        rule.spec_matches(spec_title_or_empty(first.title)),
        !rule.spec_matches(spec_title_or_empty(second.title)),
    ensures
        spec_detect_urls(seq![first, second], wm, rule) == seq![first.link.unwrap()],
        spec_new_watermark(seq![first, second], wm) == second.published,
{
    let items = seq![first, second];
    let once = seq![first];
    assert(items.last() == second);
    assert(items.drop_last() =~= once);
    assert(once.last() == first);
    assert(once.drop_last() =~= Seq::<ItemModel>::empty());
    assert(spec_detect_urls(Seq::<ItemModel>::empty(), wm, rule) == Seq::<Seq<char>>::empty());
    assert(spec_new_watermark(Seq::<ItemModel>::empty(), wm) == wm);
    assert(spec_detect_urls(once, wm, rule) =~= seq![first.link.unwrap()]);
    assert(spec_new_watermark(once, wm) == first.published);
    assert(spec_detect_urls(items, wm, rule) =~= seq![first.link.unwrap()]);
    assert(spec_new_watermark(items, wm) == second.published);
}

/// An item without a link is never selected, and leaves the new watermark
/// exactly as if its timestamp alone had been offered to the maximum.
pub proof fn lemma_missing_link_skipped(
    items: Seq<ItemModel>,
    it: ItemModel,
    wm: Timestamp,
    rule: FilterRule,
)
    requires
        it.link is None,
    ensures
        spec_detect_urls(items.push(it), wm, rule) == spec_detect_urls(items, wm, rule),
        spec_new_watermark(items.push(it), wm) == spec_later(
            spec_new_watermark(items, wm),
            it.published,
        ),
{
    assert(items.push(it).drop_last() =~= items);
    assert(items.push(it).last() == it);
    assert(spec_detect_urls(items.push(it), wm, rule) =~= spec_detect_urls(items, wm, rule));
}

} // verus!

