//! Feeds: the text of each item of an RSS channel.

use crate::text::{texts, trim, trimmed};
use vstd::prelude::*;

verus! {

/// Why a feed gave no items.
#[derive(Clone, Debug, PartialEq, Eq)]
pub enum FeedError {
    /// The body is no RSS channel; with what the reader says is wrong with it.
    Malformed(String),
}

impl FeedError {
    /// The reason in words: the reader's own.
    pub fn reason(&self) -> (r: String)
        ensures
            match *self {
                FeedError::Malformed(complaint) => r@ == complaint@,
            },
    {
        match self {
            FeedError::Malformed(complaint) => complaint.clone(),
        }
    }
}

/// What is read of one item of a channel.
pub struct FeedItem {
    pub title: Option<String>,
    pub description: Option<String>,
}

/// What a `FeedItem` holds, as text: its title and its description.
pub open spec fn item_parts(item: FeedItem) -> (Option<Seq<char>>, Option<Seq<char>>) {
    (
        match item.title {
            Some(t) => Some(t@),
            None => None,
        },
        match item.description {
            Some(d) => Some(d@),
            None => None,
        },
    )
}

/// What each item of `items` holds, as text.
pub open spec fn items_parts(items: Seq<FeedItem>) -> Seq<(Option<Seq<char>>, Option<Seq<char>>)> {
    items.map_values(|item: FeedItem| item_parts(item))
}

/// The title and the description of each item of the channel that the RSS
/// reader finds in `body`, in the order of the channel; or, where `body` is
/// no channel, what the reader says is wrong with it.
pub uninterp spec fn feed_items(body: Seq<u8>) -> Result<
    Seq<(Option<Seq<char>>, Option<Seq<char>>)>,
    Seq<char>,
>;

/// `Channel::read_from` of rss, with `Channel::items`, `Item::title` and
/// `Item::description` of what it returns, or the `Display` of its error.
/// Trusted: that the outcome depends on the bytes alone.
#[verifier::external_body]
fn read_feed(body: &[u8]) -> (items: Result<Vec<FeedItem>, String>)
    ensures
        match items {
            Ok(list) => feed_items(body@) == Ok::<
                Seq<(Option<Seq<char>>, Option<Seq<char>>)>,
                Seq<char>,
            >(items_parts(list@)),
            Err(complaint) => feed_items(body@) == Err::<
                Seq<(Option<Seq<char>>, Option<Seq<char>>)>,
                Seq<char>,
            >(complaint@),
        },
{
    match rss::Channel::read_from(body) {
        Ok(channel) => Ok(
            channel.items().iter().map(
                |item|
                    FeedItem {
                        title: item.title().map(|t| t.to_string()),
                        description: item.description().map(|d| d.to_string()),
                    },
            ).collect(),
        ),
        Err(complaint) => Err(complaint.to_string()),
    }
}

/// `text` where there is one, else the empty text.
pub open spec fn or_empty(text: Option<Seq<char>>) -> Seq<char> {
    match text {
        Some(t) => t,
        None => Seq::empty(),
    }
}

/// The text of one item: its title, a line feed and its description, without
/// the white space at either end. A part that is missing counts as empty.
pub open spec fn item_text(parts: (Option<Seq<char>>, Option<Seq<char>>)) -> Seq<char> {
    trimmed(or_empty(parts.0) + "\n"@ + or_empty(parts.1))
}

/// The texts of the items of a channel, in order, without those that are empty.
pub open spec fn feed_texts(items: Seq<(Option<Seq<char>>, Option<Seq<char>>)>) -> Seq<Seq<char>>
    decreases items.len(),
{
    if items.len() == 0 {
        Seq::empty()
    } else {
        let text = item_text(items.last());
        if text.len() > 0 {
            feed_texts(items.drop_last()).push(text)
        } else {
            feed_texts(items.drop_last())
        }
    }
}

/// The texts of `items`, in order, without those that are empty.
pub fn item_texts(items: &Vec<FeedItem>) -> (out: Vec<String>)
    ensures
        texts(out@) == feed_texts(items_parts(items@)),
{
    let mut out: Vec<String> = Vec::new();
    let mut i: usize = 0;
    assert(items_parts(items@).take(0) =~= Seq::empty());
    assert(texts(out@) =~= Seq::empty());
    while i < items.len()
        invariant
            i <= items.len(),
            texts(out@) == feed_texts(items_parts(items@).take(i as int)),
        decreases items.len() - i,
    {
        proof {
            let upto = items_parts(items@).take(i + 1);
            assert(upto.drop_last() =~= items_parts(items@).take(i as int));
            assert(upto.last() == item_parts(items@[i as int]));
        }
        let mut whole = match &items[i].title {
            Some(t) => t.clone(),
            None => String::new(),
        };
        whole.append("\n");
        match &items[i].description {
            Some(d) => {
                whole.append(d.as_str());
            },
            None => {
                assert(whole@ + Seq::<char>::empty() =~= whole@);
            },
        }
        let text = trim(whole.as_str());
        if text.unicode_len() > 0 {
            let kept = String::from_str(text);
            assert(texts(out@.push(kept)) =~= texts(out@).push(kept@));
            out.push(kept);
        }
        i += 1;
    }
    assert(items_parts(items@).take(items@.len() as int) =~= items_parts(items@));
    out
}

/// The texts of the items of the feed whose body is `body`, in order,
/// without those that are empty; an error where `body` is no RSS channel.
pub fn fetch_feed_text(body: &[u8]) -> (r: Result<Vec<String>, FeedError>)
    ensures
        match feed_items(body@) {
            Ok(items) => r matches Ok(list) && texts(list@) == feed_texts(items),
            Err(complaint) => r matches Err(FeedError::Malformed(said)) && said@ == complaint,
        },
{
    match read_feed(body) {
        Ok(items) => Ok(item_texts(&items)),
        Err(complaint) => Err(FeedError::Malformed(complaint)),
    }
}

} // verus!
