use rss_epub::config::{Config, EmailConfig};
use rss_epub::error::PipelineError;
use rss_epub::pipeline::{Action, Event, Phase, Run};

fn config(feeds: &[&str]) -> Config {
    Config {
        rss_feeds: feeds.iter().map(|feed| feed.to_string()).collect(),
        email: EmailConfig {
            from: "feeds@example.com".to_string(),
            to: "Reader <reader@example.org>".to_string(),
            smtp_server: "smtp.example.com".to_string(),
            username: "user".to_string(),
            password: "secret".to_string(),
        },
    }
}

fn feed(items: &[&str]) -> String {
    format!(
        "<?xml version=\"1.0\"?><rss version=\"2.0\" \
         xmlns:content=\"http://purl.org/rss/1.0/modules/content/\"><channel>\
         <title>Feed</title>{}</channel></rss>",
        items.concat()
    )
}

fn inline_item(title: &str, content: &str) -> String {
    format!(
        "<item><title>{}</title><content:encoded><![CDATA[{}]]></content:encoded></item>",
        title, content
    )
}

fn linked_item(title: &str, link: &str) -> String {
    format!("<item><title>{}</title><link>{}</link></item>", title, link)
}

fn bare_item(title: &str) -> String {
    format!("<item><title>{}</title></item>", title)
}

fn is_write(action: &Action) -> bool {
    matches!(action, Action::WriteBook { .. })
}

fn all_events() -> Vec<Event> {
    vec![
        Event::FeedFetched(String::new()),
        Event::ArticleFetched(String::new()),
        Event::FetchFailed,
        Event::BookWritten,
        Event::WriteFailed,
        Event::EmailSent,
        Event::AttachmentUnreadable,
        Event::SendFailed,
    ]
}

fn accepted(run: &Run) -> Vec<Event> {
    all_events().into_iter().filter(|event| run.accepts_event(event)).collect()
}

#[test]
fn one_feed_with_one_inline_item() {
    let (mut run, action) = Run::start(config(&["http://example.com/feed"]));
    assert_eq!(action, Action::FetchFeed("http://example.com/feed".to_string()));
    assert_eq!(run.phase(), Phase::AwaitingFeed);

    let document = feed(&[&inline_item("Hi: there?", "<p>Hello</p>")]);
    let action = run.step(Event::FeedFetched(document));
    match &action {
        Action::WriteBook { path, bytes } => {
            assert_eq!(path, "rss_feed.epub");
            assert_eq!(&bytes[0..2], b"PK");
        }
        other => panic!("unexpected action {:?}", other),
    }
    assert_eq!(run.phase(), Phase::AwaitingWrite);
    assert_eq!(run.book().len(), 1);
    let chapter = run.book().chapter(0);
    assert_eq!(chapter.file_name, "aaHi_there.xhtml");
    assert_eq!(chapter.title, "aaHi_there.xhtml");
    assert_eq!(chapter.body, "<p> Hello </p>");
}

#[test]
fn failed_fetch_of_the_first_feed_ends_the_run() {
    let (mut run, action) = Run::start(config(&["http://a/", "http://b/"]));
    assert_eq!(action, Action::FetchFeed("http://a/".to_string()));
    assert!(!is_write(&action));
    let action = run.step(Event::FetchFailed);
    assert_eq!(action, Action::Abort(PipelineError::Network));
    assert_eq!(run.phase(), Phase::Failed);
    assert_eq!(run.book().len(), 0);
    assert_eq!(accepted(&run), Vec::<Event>::new());
}

#[test]
fn failed_fetch_of_an_article_ends_the_run() {
    let (mut run, _) = Run::start(config(&["http://a/", "http://b/"]));
    let document = feed(&[&inline_item("One", "1"), &linked_item("Two", "http://a/two")]);
    assert_eq!(
        run.step(Event::FeedFetched(document)),
        Action::FetchArticle("http://a/two".to_string())
    );
    assert_eq!(run.step(Event::FetchFailed), Action::Abort(PipelineError::Network));
    assert_eq!(run.phase(), Phase::Failed);
    assert_eq!(run.book().len(), 1);
}

#[test]
fn linked_item_gets_the_paragraphs_of_its_article() {
    let (mut run, _) = Run::start(config(&["http://a/"]));
    let document = feed(&[&linked_item("Linked", "http://a/article")]);
    let action = run.step(Event::FeedFetched(document));
    assert_eq!(action, Action::FetchArticle("http://a/article".to_string()));
    assert_eq!(run.phase(), Phase::AwaitingArticle);
    assert_eq!(run.book().len(), 0);

    let page = "<html><body><p>First <a href=\"http://x/\">link</a>.</p>\
        <p>Second</p></body></html>";
    let action = run.step(Event::ArticleFetched(page.to_string()));
    assert!(is_write(&action));
    assert_eq!(run.book().len(), 1);
    assert_eq!(run.book().chapter(0).file_name, "aaLinked.xhtml");
    assert_eq!(run.book().chapter(0).body, "<p> First link.  Second </p>");
}

#[test]
fn item_without_content_and_link_gets_the_placeholder() {
    let (mut run, _) = Run::start(config(&["http://a/"]));
    let action = run.step(Event::FeedFetched(feed(&[&bare_item("Bare")])));
    assert!(is_write(&action));
    assert_eq!(run.book().len(), 1);
    assert_eq!(run.book().chapter(0).file_name, "aaBare.xhtml");
    assert_eq!(run.book().chapter(0).body, "<p>No content available</p>");
}

#[test]
fn item_without_title_is_passed_over() {
    let (mut run, _) = Run::start(config(&["http://a/"]));
    let document = feed(&[
        "<item><link>http://a/untitled</link></item>",
        &inline_item("Titled", "text"),
        "<item><description>nothing</description></item>",
    ]);
    let action = run.step(Event::FeedFetched(document));
    assert!(is_write(&action));
    assert_eq!(run.book().len(), 1);
    assert_eq!(run.book().chapter(0).file_name, "aaTitled.xhtml");
}

#[test]
fn feeds_and_items_are_taken_in_order() {
    let (mut run, action) = Run::start(config(&["http://a/", "http://b/"]));
    assert_eq!(action, Action::FetchFeed("http://a/".to_string()));
    let first = feed(&[
        &inline_item("A1", "a1"),
        &linked_item("A2", "http://a/2"),
        &inline_item("A3", "a3"),
        &linked_item("A4", "http://a/4"),
    ]);
    assert_eq!(run.step(Event::FeedFetched(first)), Action::FetchArticle("http://a/2".to_string()));
    assert_eq!(run.book().len(), 1);
    assert_eq!(
        run.step(Event::ArticleFetched("<p>two</p>".to_string())),
        Action::FetchArticle("http://a/4".to_string())
    );
    assert_eq!(run.book().len(), 3);
    assert_eq!(
        run.step(Event::ArticleFetched("<p>four</p>".to_string())),
        Action::FetchFeed("http://b/".to_string())
    );
    assert_eq!(run.phase(), Phase::AwaitingFeed);
    let second = feed(&[&inline_item("B1", "b1")]);
    assert!(is_write(&run.step(Event::FeedFetched(second))));
    let names: Vec<String> =
        (0..run.book().len()).map(|i| run.book().chapter(i).file_name.clone()).collect();
    assert_eq!(names, ["aaA1.xhtml", "aaA2.xhtml", "aaA3.xhtml", "aaA4.xhtml", "aaB1.xhtml"]);
    assert_eq!(run.book().chapter(1).body, "<p> two </p>");
    assert_eq!(run.book().chapter(2).body, "<p>a3</p>");
}

#[test]
fn every_chapter_has_a_safe_name_its_name_as_title_and_a_wrapped_body() {
    let (mut run, _) = Run::start(config(&["http://a/"]));
    let document = feed(&[
        &inline_item("What's new: 50% off?", "<b>one</b>"),
        &bare_item("a/b c"),
        &linked_item("Caf\u{e9} \u{2014} men\u{fc}", "http://a/menu"),
    ]);
    assert_eq!(
        run.step(Event::FeedFetched(document)),
        Action::FetchArticle("http://a/menu".to_string())
    );
    assert!(is_write(&run.step(Event::ArticleFetched("<p>soup</p>".to_string()))));
    let book = run.book();
    assert_eq!(book.len(), 3);
    for i in 0..book.len() {
        let chapter = book.chapter(i);
        assert_eq!(chapter.title, chapter.file_name);
        assert!(chapter.file_name.is_ascii());
        assert!(chapter.file_name.starts_with("aa") && chapter.file_name.ends_with(".xhtml"));
        assert!(!chapter.file_name.contains(|c| ":?% /'".contains(c)));
        assert!(chapter.body.starts_with("<p>") && chapter.body.ends_with("</p>"));
        for j in 0..i {
            assert_ne!(book.chapter(j).file_name, chapter.file_name);
        }
    }
    assert_eq!(book.chapter(0).file_name, "aaWhat_s_new_50_off.xhtml");
    assert_eq!(book.chapter(1).file_name, "aaa_b_c.xhtml");
    assert_eq!(book.chapter(2).file_name, "aaCaf__men.xhtml");
}

#[test]
fn title_too_long_for_the_container_ends_the_run_when_the_book_is_made() {
    let (mut run, _) = Run::start(config(&["http://a/"]));
    let title = "t".repeat(70_000);
    let document = feed(&[&inline_item("Short", "one"), &inline_item(&title, "two")]);
    assert_eq!(run.step(Event::FeedFetched(document)), Action::Abort(PipelineError::Assembly));
    assert_eq!(run.phase(), Phase::Failed);
    assert_eq!(run.book().len(), 2);
}

#[test]
fn written_bytes_hold_the_file_name_of_each_chapter() {
    let (mut run, _) = Run::start(config(&["http://a/"]));
    let document = feed(&[&inline_item("One", "1"), &bare_item("Two")]);
    match run.step(Event::FeedFetched(document)) {
        Action::WriteBook { path, bytes } => {
            assert_eq!(path, "rss_feed.epub");
            for name in ["aaOne.xhtml", "aaTwo.xhtml"] {
                assert!(bytes.windows(name.len()).any(|window| window == name.as_bytes()));
            }
        }
        other => panic!("unexpected action {:?}", other),
    }
}

#[test]
fn second_chapter_of_the_same_name_ends_the_run() {
    let (mut run, _) = Run::start(config(&["http://a/", "http://b/"]));
    let document = feed(&[
        &inline_item("Same title", "one"),
        &inline_item("Same/title", "two"),
        &linked_item("Never", "http://a/never"),
    ]);
    assert_eq!(run.step(Event::FeedFetched(document)), Action::Abort(PipelineError::Assembly));
    assert_eq!(run.phase(), Phase::Failed);
    assert_eq!(run.book().len(), 1);
    assert_eq!(run.book().chapter(0).body, "<p>one</p>");
}

#[test]
fn article_for_a_taken_name_ends_the_run() {
    let (mut run, _) = Run::start(config(&["http://a/"]));
    let document = feed(&[&inline_item("Twice", "one"), &linked_item("Twice", "http://a/2")]);
    assert_eq!(run.step(Event::FeedFetched(document)), Action::FetchArticle("http://a/2".to_string()));
    assert_eq!(
        run.step(Event::ArticleFetched("<p>two</p>".to_string())),
        Action::Abort(PipelineError::Assembly)
    );
    assert_eq!(run.book().len(), 1);
}

#[test]
fn document_that_is_no_feed_ends_the_run() {
    let (mut run, _) = Run::start(config(&["http://a/"]));
    let action = run.step(Event::FeedFetched("<html>not a feed</html>".to_string()));
    assert_eq!(action, Action::Abort(PipelineError::Parse));
    assert_eq!(run.phase(), Phase::Failed);
}

#[test]
fn without_feeds_the_empty_book_is_written() {
    let (run, action) = Run::start(config(&[]));
    assert!(is_write(&action));
    assert_eq!(run.phase(), Phase::AwaitingWrite);
    assert_eq!(run.book().len(), 0);
}

#[test]
fn written_book_is_sent_and_the_run_finishes() {
    let (mut run, _) = Run::start(config(&[]));
    let action = run.step(Event::BookWritten);
    match action {
        Action::SendEmail(message) => {
            assert_eq!(message.from, "feeds@example.com");
            assert_eq!(message.to, "Reader <reader@example.org>");
            assert_eq!(message.subject, "Your RSS Feed Compilation");
            assert_eq!(message.content_type, "application/epub+zip");
            assert_eq!(message.attachment_path, "rss_feed.epub");
            assert_eq!(message.smtp_server, "smtp.example.com");
            assert_eq!(message.username, "user");
            assert_eq!(message.password, "secret");
        }
        other => panic!("unexpected action {:?}", other),
    }
    assert_eq!(run.phase(), Phase::AwaitingSend);
    assert_eq!(run.step(Event::EmailSent), Action::Finish);
    assert_eq!(run.phase(), Phase::Finished);
    assert_eq!(accepted(&run), Vec::<Event>::new());
}

#[test]
fn invalid_address_ends_the_run_after_the_book_is_written() {
    let mut broken = config(&[]);
    broken.email.to = "nobody".to_string();
    let (mut run, action) = Run::start(broken);
    assert!(is_write(&action));
    assert_eq!(run.step(Event::BookWritten), Action::Abort(PipelineError::Validation));
    assert_eq!(run.phase(), Phase::Failed);
}

#[test]
fn failed_write_is_an_io_error() {
    let (mut run, _) = Run::start(config(&[]));
    assert_eq!(run.step(Event::WriteFailed), Action::Abort(PipelineError::Io));
    assert_eq!(run.phase(), Phase::Failed);
}

#[test]
fn unreadable_attachment_is_an_io_error() {
    let (mut run, _) = Run::start(config(&[]));
    run.step(Event::BookWritten);
    assert_eq!(run.step(Event::AttachmentUnreadable), Action::Abort(PipelineError::Io));
    assert_eq!(run.phase(), Phase::Failed);
}

#[test]
fn failed_send_is_a_transport_error() {
    let (mut run, _) = Run::start(config(&[]));
    run.step(Event::BookWritten);
    assert_eq!(run.step(Event::SendFailed), Action::Abort(PipelineError::Transport));
    assert_eq!(run.phase(), Phase::Failed);
}

#[test]
fn each_phase_accepts_its_own_events() {
    let (mut run, _) = Run::start(config(&["http://a/"]));
    assert_eq!(accepted(&run), vec![Event::FeedFetched(String::new()), Event::FetchFailed]);
    run.step(Event::FeedFetched(feed(&[&linked_item("L", "http://a/l")])));
    assert_eq!(accepted(&run), vec![Event::ArticleFetched(String::new()), Event::FetchFailed]);
    run.step(Event::ArticleFetched(String::new()));
    assert_eq!(accepted(&run), vec![Event::BookWritten, Event::WriteFailed]);
    run.step(Event::BookWritten);
    assert_eq!(
        accepted(&run),
        vec![Event::EmailSent, Event::AttachmentUnreadable, Event::SendFailed]
    );
}
