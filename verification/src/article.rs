//! Articles: from a fetched page to the text of its paragraphs.

use vstd::prelude::*;
use vstd::string::StringExecFns;
use crate::error::PipelineError;
use crate::sanitize::{sanitize_html_content, sanitized_html};
use crate::text::{
    concat3, law_replaced_absent, law_replaced_single_occurrence, occurs_at, occurs_in,
    replace_all, replaced, views,
};

verus! {

/// An element found in a piece of HTML: its own markup, and the pieces of
/// text inside it.
#[derive(Clone, Debug, PartialEq, Eq)]
pub struct Element {
    /// The element's markup, from its opening tag to its closing tag.
    pub markup: String,
    /// The pieces of text inside the element, in the order in which the
    /// element yields them.
    pub texts: Vec<String>,
}

/// An element as a mathematical value.
pub ghost struct ElementView {
    pub markup: Seq<char>,
    pub texts: Seq<Seq<char>>,
}

impl View for Element {
    type V = ElementView;

    open spec fn view(&self) -> ElementView {
        ElementView { markup: self.markup@, texts: views(self.texts@) }
    }
}

impl ElementView {
    /// The text that stands for an anchor: all the pieces of text inside
    /// it, in their order, as one text. It is empty where there is no piece.
    pub open spec fn label(self) -> Seq<char> {
        self.texts.flatten()
    }
}

/// What the HTML parser finds in a document for a selector: the inner HTML
/// of each matching element, in the order in which the selection yields
/// them, or `None` where the selector is not a valid selector.
pub uninterp spec fn selected_inner_html(document: Seq<char>, selector: Seq<char>) -> Option<
    Seq<Seq<char>>,
>;

/// What the HTML parser finds in a fragment for a selector: each matching
/// element, in the order in which the selection yields them, or `None`
/// where the selector is not a valid selector.
pub uninterp spec fn selected_elements(fragment: Seq<char>, selector: Seq<char>) -> Option<
    Seq<ElementView>,
>;

/// Parses the selector with `scraper::Selector::parse` and the document with
/// `scraper::Html::parse_document`, and hands out `ElementRef::inner_html` of
/// each element that `Html::select` yields, in its order. The outcome depends
/// on the two texts alone, so it is given the name `selected_inner_html`;
/// nothing more is claimed of it.
#[verifier::external_body]
fn select_inner_html(document: &str, selector: &str) -> (outcome: Option<Vec<String>>)
    ensures
        outcome matches Some(found) ==> selected_inner_html(document@, selector@) == Some(
            views(found@),
        ),
        outcome is None ==> selected_inner_html(document@, selector@) is None,
{
    let selector = scraper::Selector::parse(selector).ok()?;
    let html = scraper::Html::parse_document(document);
    Some(html.select(&selector).map(|element| element.inner_html()).collect())
}

/// Parses the selector with `scraper::Selector::parse` and the fragment with
/// `scraper::Html::parse_fragment`, and hands out, for each element that
/// `Html::select` yields, in its order, `ElementRef::html` and the items of
/// `ElementRef::text`. The outcome depends on the two texts alone, so it is
/// given the name `selected_elements`; nothing more is claimed of it.
#[verifier::external_body]
fn select_elements(fragment: &str, selector: &str) -> (outcome: Option<Vec<Element>>)
    ensures
        outcome matches Some(found) ==> selected_elements(fragment@, selector@) == Some(
            views(found@),
        ),
        outcome is None ==> selected_elements(fragment@, selector@) is None,
{
    let selector = scraper::Selector::parse(selector).ok()?;
    let html = scraper::Html::parse_fragment(fragment);
    Some(
        html.select(&selector).map(
            |element|
                Element {
                    markup: element.html(),
                    texts: element.text().map(str::to_owned).collect(),
                },
        ).collect(),
    )
}

/// `content` inside one paragraph tag.
pub open spec fn in_paragraph_tag(content: Seq<char>) -> Seq<char> {
    "<p>"@ + content + "</p>"@
}

/// A paragraph in which the markup of each anchor is replaced by the
/// anchor's label, one anchor after the other.
pub open spec fn without_anchors(paragraph: Seq<char>, anchors: Seq<ElementView>) -> Seq<char>
    decreases anchors.len(),
{
    if anchors.len() == 0 {
        paragraph
    } else {
        replaced(
            without_anchors(paragraph, anchors.drop_last()),
            anchors.last().markup,
            anchors.last().label(),
        )
    }
}

/// The paragraphs one after the other, each inside a paragraph tag of its
/// own.
pub open spec fn paragraphs_joined(paragraphs: Seq<Seq<char>>) -> Seq<char>
    decreases paragraphs.len(),
{
    if paragraphs.len() == 0 {
        Seq::empty()
    } else {
        paragraphs_joined(paragraphs.drop_last()) + in_paragraph_tag(paragraphs.last())
    }
}

/// A paragraph with its hyperlinks taken out: the anchors are those that
/// the HTML parser finds in the paragraph itself.
pub open spec fn paragraph_text(paragraph: Seq<char>) -> Option<Seq<char>> {
    match selected_elements(paragraph, "a"@) {
        Some(anchors) => Some(without_anchors(paragraph, anchors)),
        None => None,
    }
}

/// The paragraphs with their hyperlinks taken out, or `None` if that fails
/// for one of them.
pub open spec fn paragraph_texts(paragraphs: Seq<Seq<char>>) -> Option<Seq<Seq<char>>>
    decreases paragraphs.len(),
{
    if paragraphs.len() == 0 {
        Some(Seq::empty())
    } else {
        match (paragraph_texts(paragraphs.drop_last()), paragraph_text(paragraphs.last())) {
            (Some(front), Some(last)) => Some(front.push(last)),
            _ => None,
        }
    }
}

/// The text of a page before it is sanitized: its paragraphs in the order
/// in which the selection yields them, hyperlinks taken out, each inside a
/// paragraph tag.
pub open spec fn article_markup(page: Seq<char>) -> Option<Seq<char>> {
    match selected_inner_html(page, "p"@) {
        Some(paragraphs) => match paragraph_texts(paragraphs) {
            Some(stripped) => Some(paragraphs_joined(stripped)),
            None => None,
        },
        None => None,
    }
}

/// The content of a page: its markup, sanitized.
pub open spec fn article_content(page: Seq<char>) -> Result<Seq<char>, PipelineError> {
    match article_markup(page) {
        Some(markup) => match sanitized_html(markup) {
            Some(content) => Ok(content),
            None => Err(PipelineError::Sanitization),
        },
        None => Err(PipelineError::Parse),
    }
}

/// Puts `content` inside one paragraph tag.
pub fn wrap_in_paragraph(content: &str) -> (wrapped: String)
    ensures
        wrapped@ == in_paragraph_tag(content@),
{
    concat3("<p>", content, "</p>")
}

/// The label of an anchor: all the pieces of text inside it, in their
/// order, as one text.
pub fn anchor_label(anchor: &Element) -> (label: String)
    ensures
        label@ == anchor@.label(),
{
    let mut label = String::new();
    let mut i: usize = 0;
    let ghost pieces = views(anchor.texts@);
    assert(pieces.take(0) =~= Seq::<Seq<char>>::empty());
    while i < anchor.texts.len()
        invariant
            i <= anchor.texts.len(),
            pieces == views(anchor.texts@),
            label@ == pieces.take(i as int).flatten(),
        decreases anchor.texts.len() - i,
    {
        proof {
            assert(pieces.take(i + 1) =~= pieces.take(i as int).push(anchor.texts@[i as int]@));
            pieces.take(i as int).lemma_flatten_push(anchor.texts@[i as int]@);
        }
        label.append(anchor.texts[i].as_str());
        i += 1;
    }
    assert(pieces.take(anchor.texts.len() as int) =~= pieces);
    label
}

/// Replaces, in a paragraph, the markup of each anchor by the anchor's
/// label, one anchor after the other in the order given.
pub fn strip_anchors(paragraph: &str, anchors: &Vec<Element>) -> (stripped: String)
    ensures
        stripped@ == without_anchors(paragraph@, views(anchors@)),
{
    let mut current = paragraph.to_owned();
    let mut i: usize = 0;
    let ghost all = views(anchors@);
    while i < anchors.len()
        invariant
            i <= anchors.len(),
            all == views(anchors@),
            current@ == without_anchors(paragraph@, all.take(i as int)),
        decreases anchors.len() - i,
    {
        proof {
            assert(all.take(i + 1).drop_last() =~= all.take(i as int));
        }
        let anchor = &anchors[i];
        let label = anchor_label(anchor);
        current = replace_all(current.as_str(), anchor.markup.as_str(), label.as_str());
        i += 1;
    }
    assert(all.take(anchors.len() as int) =~= all);
    current
}

/// Puts each paragraph inside a paragraph tag of its own and the results one
/// after the other.
pub fn join_paragraphs(paragraphs: &Vec<String>) -> (joined: String)
    ensures
        joined@ == paragraphs_joined(views(paragraphs@)),
{
    let mut joined = String::new();
    let mut i: usize = 0;
    let ghost all = views(paragraphs@);
    while i < paragraphs.len()
        invariant
            i <= paragraphs.len(),
            all == views(paragraphs@),
            joined@ == paragraphs_joined(all.take(i as int)),
        decreases paragraphs.len() - i,
    {
        proof {
            assert(all.take(i + 1).drop_last() =~= all.take(i as int));
        }
        joined.append("<p>");
        joined.append(paragraphs[i].as_str());
        joined.append("</p>");
        i += 1;
    }
    assert(all.take(paragraphs.len() as int) =~= all);
    joined
}

/// Takes the hyperlinks out of a paragraph: the anchors are looked up in the
/// paragraph itself. Fails with `Parse` exactly where that lookup fails.
pub fn strip_paragraph(paragraph: &str) -> (outcome: Result<String, PipelineError>)
    ensures
        outcome matches Ok(stripped) ==> paragraph_text(paragraph@) == Some(stripped@),
        outcome matches Err(error) ==> error == PipelineError::Parse && paragraph_text(paragraph@)
            is None,
{
    match select_elements(paragraph, "a") {
        Some(anchors) => Ok(strip_anchors(paragraph, &anchors)),
        None => Err(PipelineError::Parse),
    }
}

/// The content of a fetched article page: the inner HTML of each paragraph
/// element, in the order in which the selection yields them, hyperlinks
/// replaced by their label, each inside a paragraph tag of its own, and the
/// whole sanitized.
pub fn extract_full_content(page: &str) -> (outcome: Result<String, PipelineError>)
    ensures
        outcome matches Ok(content) ==> article_content(page@) == Ok::<Seq<char>, PipelineError>(
            content@,
        ),
        outcome matches Err(error) ==> article_content(page@) == Err::<Seq<char>, PipelineError>(
            error,
        ),
{
    let paragraphs = match select_inner_html(page, "p") {
        Some(paragraphs) => paragraphs,
        None => {
            return Err(PipelineError::Parse);
        },
    };
    let ghost sources = views(paragraphs@);
    let mut stripped: Vec<String> = Vec::new();
    let mut i: usize = 0;
    while i < paragraphs.len()
        invariant
            i <= paragraphs.len(),
            sources == views(paragraphs@),
            selected_inner_html(page@, "p"@) == Some(sources),
            paragraph_texts(sources.take(i as int)) == Some(views(stripped@)),
        decreases paragraphs.len() - i,
    {
        proof {
            assert(sources.take(i + 1).drop_last() =~= sources.take(i as int));
        }
        match strip_paragraph(paragraphs[i].as_str()) {
            Ok(text) => {
                stripped.push(text);
            },
            Err(error) => {
                proof {
                    lemma_paragraph_texts_fail(sources, i + 1);
                }
                return Err(error);
            },
        }
        i += 1;
    }
    assert(sources.take(paragraphs.len() as int) =~= sources);
    let markup = join_paragraphs(&stripped);
    sanitize_html_content(markup.as_str())
}

/// Once taking the hyperlinks out has failed for the first `n` paragraphs,
/// it fails for all of them.
proof fn lemma_paragraph_texts_fail(paragraphs: Seq<Seq<char>>, n: int)
    requires
        0 <= n <= paragraphs.len(),
        paragraph_texts(paragraphs.take(n)) is None,
    ensures
        paragraph_texts(paragraphs) is None,
    decreases paragraphs.len() - n,
{
    if n < paragraphs.len() {
        assert(paragraphs.take(n + 1).drop_last() =~= paragraphs.take(n));
        lemma_paragraph_texts_fail(paragraphs, n + 1);
    } else {
        assert(paragraphs.take(n) =~= paragraphs);
    }
}

/// One paragraph makes one paragraph tag, and the paragraphs of two parts
/// make the tags of the first part followed by those of the second: the
/// joined text holds one tag for each paragraph, in the paragraphs' order.
pub proof fn law_one_tag_per_paragraph(first: Seq<Seq<char>>, second: Seq<Seq<char>>)
    ensures
        paragraphs_joined(Seq::empty()) == Seq::<char>::empty(),
        forall|paragraph: Seq<char>| #[trigger]
            paragraphs_joined(seq![paragraph]) == in_paragraph_tag(paragraph),
        paragraphs_joined(first + second) == paragraphs_joined(first) + paragraphs_joined(second),
    decreases second.len(),
{
    assert forall|paragraph: Seq<char>| #[trigger]
        paragraphs_joined(seq![paragraph]) == in_paragraph_tag(paragraph) by {
        let one = seq![paragraph];
        assert(paragraphs_joined(one.drop_last()) =~= Seq::<char>::empty());
    }
    if second.len() > 0 {
        assert((first + second).drop_last() =~= first + second.drop_last());
        law_one_tag_per_paragraph(first, second.drop_last());
    }
}

/// Whether `stripped` holds, for each paragraph in order, that paragraph
/// with its hyperlinks taken out.
pub open spec fn one_for_one(paragraphs: Seq<Seq<char>>, stripped: Seq<Seq<char>>) -> bool {
    &&& stripped.len() == paragraphs.len()
    &&& forall|i: int|
        0 <= i < paragraphs.len() ==> paragraph_text(#[trigger] paragraphs[i]) == Some(stripped[i])
}

/// Taking the hyperlinks out goes paragraph by paragraph: where it
/// succeeds, there is one text for each paragraph, in the paragraphs' order.
pub proof fn law_one_text_per_paragraph(paragraphs: Seq<Seq<char>>)
    ensures
        paragraph_texts(paragraphs) matches Some(stripped) ==> one_for_one(paragraphs, stripped),
    decreases paragraphs.len(),
{
    if paragraphs.len() > 0 {
        law_one_text_per_paragraph(paragraphs.drop_last());
        if let Some(stripped) = paragraph_texts(paragraphs) {
            assert forall|i: int| 0 <= i < paragraphs.len() implies paragraph_text(
                #[trigger] paragraphs[i],
            ) == Some(stripped[i]) by {
                if i < paragraphs.len() - 1 {
                    assert(paragraphs.drop_last()[i] == paragraphs[i]);
                }
            }
        }
    }
}

/// An anchor whose markup stands nowhere in a paragraph leaves the
/// paragraph as it is.
pub proof fn law_anchor_left_alone(paragraph: Seq<char>, anchor: ElementView)
    requires
        anchor.markup.len() > 0,
        !occurs_in(paragraph, anchor.markup),
    ensures
        without_anchors(paragraph, seq![anchor]) == paragraph,
{
    let one = seq![anchor];
    assert(without_anchors(paragraph, one.drop_last()) == paragraph);
    law_replaced_absent(paragraph, anchor.markup, anchor.label());
}

/// The label of an anchor is its pieces of text one after the other: no
/// piece is lost and none changes its place.
pub proof fn law_label_holds_every_piece(anchor: ElementView, piece: Seq<char>)
    ensures
        (ElementView { markup: anchor.markup, texts: Seq::empty() }).label() == Seq::<char>::empty(),
        (ElementView { markup: anchor.markup, texts: anchor.texts.push(piece) }).label()
            == anchor.label() + piece,
{
    anchor.texts.lemma_flatten_push(piece);
}

/// Where the markup of an anchor stands in a paragraph once, between
/// `before` and `after`, the paragraph without that anchor is `before`, the
/// whole label, and `after`: the markup is gone and the label stands
/// where the anchor stood. An anchor without text leaves nothing behind.
pub proof fn law_anchor_replaced_by_label(
    before: Seq<char>,
    anchor: ElementView,
    after: Seq<char>,
)
    requires
        anchor.markup.len() > 0,
        forall|at: int|
            0 <= at < before.len() ==> !occurs_at(
                before + anchor.markup + after,
                anchor.markup,
                at,
            ),
        !occurs_in(after, anchor.markup),
    ensures
        without_anchors(before + anchor.markup + after, seq![anchor]) == before + anchor.label()
            + after,
{
    let one = seq![anchor];
    let paragraph = before + anchor.markup + after;
    assert(without_anchors(paragraph, one.drop_last()) == paragraph);
    law_replaced_single_occurrence(before, anchor.markup, after, anchor.label());
}

} // verus!
