//! Deciding where the content of an item comes from.

use vstd::prelude::*;
use crate::error::PipelineError;
use crate::feed::{FeedItem, FeedItemView};
use crate::sanitize::{sanitize_html_content, sanitized_html};

verus! {

/// What stands for the content of an item that has neither inline content
/// nor a link.
pub open spec fn placeholder_text() -> Seq<char> {
    "No content available"@
}

/// How far an item's content is resolved without fetching anything.
#[derive(Clone, Debug, PartialEq, Eq)]
pub enum Resolution {
    /// The content, sanitized.
    Content(String),
    /// The content is on the article page at this address.
    NeedsArticle(String),
    /// The content cannot be had.
    Failed(PipelineError),
}

/// A resolution as a mathematical value: the variants of [`Resolution`],
/// with texts as sequences of characters.
pub ghost enum ResolutionView {
    Content(Seq<char>),
    NeedsArticle(Seq<char>),
    Failed(PipelineError),
}

impl View for Resolution {
    type V = ResolutionView;

    open spec fn view(&self) -> ResolutionView {
        match self {
            Resolution::Content(content) => ResolutionView::Content(content@),
            Resolution::NeedsArticle(link) => ResolutionView::NeedsArticle(link@),
            Resolution::Failed(error) => ResolutionView::Failed(*error),
        }
    }
}

/// The resolution of a text that is at hand: the text sanitized, or
/// `Sanitization` where the sanitizer reports an error.
pub open spec fn resolution_of_text(text: Seq<char>) -> ResolutionView {
    match sanitized_html(text) {
        Some(content) => ResolutionView::Content(content),
        None => ResolutionView::Failed(PipelineError::Sanitization),
    }
}

/// The resolution of an item: its inline content if it has any, else the
/// page behind its link if it has one, else the placeholder.
pub open spec fn resolution_of(item: FeedItemView) -> ResolutionView {
    match item.content {
        Some(content) => resolution_of_text(content),
        None => match item.link {
            Some(link) => ResolutionView::NeedsArticle(link),
            None => resolution_of_text(placeholder_text()),
        },
    }
}

/// Sanitizes a text that is at hand.
fn resolve_text(text: &str) -> (resolution: Resolution)
    ensures
        resolution@ == resolution_of_text(text@),
{
    match sanitize_html_content(text) {
        Ok(content) => Resolution::Content(content),
        Err(error) => Resolution::Failed(error),
    }
}

/// Resolves the content of an item as far as that needs no fetch: inline
/// content is sanitized and used; without it, an item with a link needs its
/// article; an item with neither gets the sanitized placeholder.
pub fn resolve_item(item: &FeedItem) -> (resolution: Resolution)
    ensures
        resolution@ == resolution_of(item@),
{
    match &item.content {
        Some(content) => resolve_text(content.as_str()),
        None => match &item.link {
            Some(link) => Resolution::NeedsArticle(link.clone()),
            None => resolve_text("No content available"),
        },
    }
}

} // verus!
