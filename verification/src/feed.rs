//! Feeds: from a fetched feed document to its items.

use vstd::prelude::*;
use crate::error::PipelineError;
use crate::text::{optional_text, views};

verus! {

/// One entry of a feed.
#[derive(Clone, Debug, PartialEq, Eq)]
pub struct FeedItem {
    /// The item's title, if it has one.
    pub title: Option<String>,
    /// The item's inline content, an HTML text, if it has one.
    pub content: Option<String>,
    /// The address of the item's article, if it has one.
    pub link: Option<String>,
}

/// A feed item as a mathematical value.
pub ghost struct FeedItemView {
    pub title: Option<Seq<char>>,
    pub content: Option<Seq<char>>,
    pub link: Option<Seq<char>>,
}

impl View for FeedItem {
    type V = FeedItemView;

    open spec fn view(&self) -> FeedItemView {
        FeedItemView {
            title: optional_text(self.title),
            content: optional_text(self.content),
            link: optional_text(self.link),
        }
    }
}

/// What the feed parser reads from a feed document: its items in the order
/// in which the parser hands them out, or `None` where it does not take the
/// document for a feed.
pub uninterp spec fn parsed_feed(document: Seq<char>) -> Option<Seq<FeedItemView>>;

/// The error of the feed parser, `rss::Error`, taken as an opaque value.
#[verifier::external_type_specification]
#[verifier::external_body]
pub struct ExFeedError(rss::Error);

/// Calls `rss::Channel::read_from` on the bytes of the document and hands out,
/// for each item of the channel in order, what `Item::title`, `Item::content`
/// and `Item::link` return. The outcome depends on the document alone, so it
/// is given the name `parsed_feed`; nothing more is claimed of it.
#[verifier::external_body]
fn read_channel_items(document: &str) -> (outcome: Result<Vec<FeedItem>, rss::Error>)
    ensures
        outcome matches Ok(items) ==> parsed_feed(document@) == Some(views(items@)),
        outcome is Err ==> parsed_feed(document@) is None,
{
    let channel = rss::Channel::read_from(document.as_bytes())?;
    Ok(
        channel.items().iter().map(
            |item|
                FeedItem {
                    title: item.title().map(str::to_owned),
                    content: item.content().map(str::to_owned),
                    link: item.link().map(str::to_owned),
                },
        ).collect(),
    )
}

/// Reads a fetched feed document: its items in the order in which the feed
/// parser hands them out. Fails with `Parse` exactly where the feed parser
/// does not take the document for a feed.
pub fn parse_feed(document: &str) -> (outcome: Result<Vec<FeedItem>, PipelineError>)
    ensures
        outcome matches Ok(items) ==> parsed_feed(document@) == Some(views(items@)),
        outcome matches Err(error) ==> error == PipelineError::Parse && parsed_feed(document@)
            is None,
{
    match read_channel_items(document) {
        Ok(items) => Ok(items),
        Err(_) => Err(PipelineError::Parse),
    }
}

} // verus!
