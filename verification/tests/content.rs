use rss_epub::article::{
    anchor_label, extract_full_content, join_paragraphs, strip_anchors, strip_paragraph,
    wrap_in_paragraph, Element,
};
use rss_epub::error::PipelineError;
use rss_epub::feed::{parse_feed, FeedItem};
use rss_epub::resolver::{resolve_item, Resolution};
use rss_epub::sanitize::sanitize_html_content;

fn anchor(markup: &str, texts: &[&str]) -> Element {
    Element {
        markup: markup.to_string(),
        texts: texts.iter().map(|text| text.to_string()).collect(),
    }
}

fn item(title: Option<&str>, content: Option<&str>, link: Option<&str>) -> FeedItem {
    FeedItem {
        title: title.map(str::to_string),
        content: content.map(str::to_string),
        link: link.map(str::to_string),
    }
}

const FEED: &str = r#"<?xml version="1.0" encoding="UTF-8"?>
<rss version="2.0" xmlns:content="http://purl.org/rss/1.0/modules/content/">
  <channel>
    <title>Example</title>
    <link>http://example.com/</link>
    <description>An example feed</description>
    <item>
      <title>First</title>
      <link>http://example.com/first</link>
      <content:encoded><![CDATA[<p>Inline <b>text</b></p>]]></content:encoded>
    </item>
    <item>
      <title>Second</title>
      <link>http://example.com/second</link>
      <description>Only a summary</description>
    </item>
    <item>
      <description>No title here</description>
    </item>
  </channel>
</rss>"#;

#[test]
fn sanitizer_removes_script_with_its_content() {
    let out = sanitize_html_content("<p>Hello</p><script>alert(\"x\");</script>").unwrap();
    assert!(!out.contains("script"));
    assert!(!out.contains("alert"));
    assert!(out.contains("Hello"));
}

#[test]
fn sanitizer_removes_tags_and_keeps_text() {
    assert_eq!(sanitize_html_content("<b>bold</b> and <i>italic</i>").unwrap(), "bold and italic");
    assert_eq!(sanitize_html_content("No content available").unwrap(), "No content available");
    assert_eq!(sanitize_html_content("").unwrap(), "");
}

#[test]
fn sanitizer_puts_spaces_for_a_paragraph() {
    assert_eq!(sanitize_html_content("<p>Hello</p>").unwrap(), " Hello ");
}

#[test]
fn sanitizer_on_mixed_markup() {
    let input = "<b>Lo<!-- comment -->rem</b> <a href=\"pants\" title=\"foo\">ipsum</a> <a href=\"http://foo.com/\"><strong>dolor</strong></a> sit<br/>amet <script>alert(\"hello world\");</script>";
    assert_eq!(sanitize_html_content(input).unwrap(), "Lorem ipsum dolor sit amet ");
}

#[test]
fn wraps_in_one_paragraph_tag() {
    assert_eq!(wrap_in_paragraph("Hello"), "<p>Hello</p>");
    assert_eq!(wrap_in_paragraph(""), "<p></p>");
}

#[test]
fn joins_paragraphs_each_in_its_own_tag() {
    let paragraphs = vec!["one".to_string(), "two".to_string(), "".to_string()];
    assert_eq!(join_paragraphs(&paragraphs), "<p>one</p><p>two</p><p></p>");
    assert_eq!(join_paragraphs(&Vec::new()), "");
}

#[test]
fn anchors_are_replaced_by_their_labels() {
    let anchors = vec![
        anchor("<a href=\"u\">here</a>", &["here"]),
        anchor("<a href=\"v\">there</a>", &["there"]),
    ];
    let paragraph = "look <a href=\"u\">here</a> and <a href=\"v\">there</a>.";
    assert_eq!(strip_anchors(paragraph, &anchors), "look here and there.");
}

#[test]
fn anchor_without_text_leaves_nothing_behind() {
    let anchors = vec![anchor("<a href=\"u\"></a>", &[])];
    let paragraph = "an <a href=\"u\"></a> empty link";
    assert_eq!(strip_anchors(paragraph, &anchors), "an  empty link");
}

#[test]
fn label_is_every_piece_of_text_in_order() {
    assert_eq!(anchor_label(&anchor("<a><b>the</b> docs</a>", &["the", " docs"])), "the docs");
    assert_eq!(anchor_label(&anchor("<a>one</a>", &["one"])), "one");
    assert_eq!(anchor_label(&anchor("<a></a>", &[])), "");
    assert_eq!(anchor_label(&anchor("<a>..</a>", &["a", "", "b", "c"])), "abc");
}

#[test]
fn anchors_are_replaced_one_after_the_other() {
    let anchors = vec![anchor("ab", &["b"]), anchor("bb", &["c"])];
    assert_eq!(strip_anchors("abb", &anchors), "c");
    assert_eq!(strip_anchors("abb", &Vec::new()), "abb");
}

#[test]
fn anchor_is_replaced_by_its_whole_text() {
    let anchors = vec![anchor("<a><b>bold</b> tail</a>", &["bold", " tail"])];
    assert_eq!(strip_anchors("x <a><b>bold</b> tail</a> y", &anchors), "x bold tail y");
}

#[test]
fn paragraph_loses_its_hyperlinks() {
    assert_eq!(
        strip_paragraph("see <a href=\"http://x.org/\">this page</a> now").unwrap(),
        "see this page now"
    );
    assert_eq!(strip_paragraph("nothing to do").unwrap(), "nothing to do");
}

#[test]
fn paragraph_keeps_the_whole_text_of_an_anchor() {
    assert_eq!(
        strip_paragraph("a <a href=\"u\"><b>bold</b> tail</a> z").unwrap(),
        "a bold tail z"
    );
    assert_eq!(
        strip_paragraph("Read <a href=\"/d\"><b>the</b> docs</a>").unwrap(),
        "Read the docs"
    );
}

#[test]
fn paragraph_loses_an_anchor_without_text() {
    assert_eq!(strip_paragraph("an <a href=\"u\"></a> empty link").unwrap(), "an  empty link");
}

#[test]
fn article_keeps_the_whole_text_of_an_anchor() {
    let page = "<html><body><p>Read <a href='/d'><b>the</b> docs</a></p></body></html>";
    assert_eq!(extract_full_content(page).unwrap(), " Read the docs ");
}

#[test]
fn article_content_is_made_of_the_paragraphs() {
    let page = "<html><head><title>T</title></head><body><h1>Head</h1>\
        <p>Hello <a href=\"http://x.org/\">world</a>!</p><div>skipped</div>\
        <p>Second</p></body></html>";
    assert_eq!(extract_full_content(page).unwrap(), " Hello world!  Second ");
}

#[test]
fn article_without_paragraphs_is_empty() {
    assert_eq!(extract_full_content("<html><body><div>x</div></body></html>").unwrap(), "");
    assert_eq!(extract_full_content("").unwrap(), "");
}

#[test]
fn article_script_inside_a_paragraph_is_removed() {
    let page = "<p>before<script>alert(1)</script>after</p>";
    assert_eq!(extract_full_content(page).unwrap(), " beforeafter ");
}

#[test]
fn feed_items_come_in_document_order() {
    let items = parse_feed(FEED).unwrap();
    assert_eq!(
        items,
        vec![
            item(Some("First"), Some("<p>Inline <b>text</b></p>"), Some("http://example.com/first")),
            item(Some("Second"), None, Some("http://example.com/second")),
            item(None, None, None),
        ]
    );
}

#[test]
fn feed_that_is_no_feed_is_a_parse_error() {
    assert_eq!(parse_feed("this is not a feed"), Err(PipelineError::Parse));
    assert_eq!(parse_feed(""), Err(PipelineError::Parse));
    assert_eq!(parse_feed("<html><body></body></html>"), Err(PipelineError::Parse));
}

#[test]
fn feed_without_items_is_empty() {
    let feed = "<rss version=\"2.0\"><channel><title>t</title></channel></rss>";
    assert_eq!(parse_feed(feed), Ok(Vec::new()));
}

#[test]
fn inline_content_is_used_first() {
    let resolution = resolve_item(&item(Some("t"), Some("<b>inline</b>"), Some("http://x/")));
    assert_eq!(resolution, Resolution::Content("inline".to_string()));
}

#[test]
fn empty_inline_content_is_still_inline_content() {
    let resolution = resolve_item(&item(Some("t"), Some(""), Some("http://x/")));
    assert_eq!(resolution, Resolution::Content("".to_string()));
}

#[test]
fn link_is_used_without_inline_content() {
    let resolution = resolve_item(&item(Some("t"), None, Some("http://x/")));
    assert_eq!(resolution, Resolution::NeedsArticle("http://x/".to_string()));
}

#[test]
fn placeholder_is_used_without_content_and_link() {
    let resolution = resolve_item(&item(Some("t"), None, None));
    assert_eq!(resolution, Resolution::Content("No content available".to_string()));
}
