//! A run, step by step: what to do next, given what has just happened.
//!
//! The run itself does no input or output. It hands out an action, the
//! caller carries it out and hands back what happened, and the run decides
//! on the next action. Feeds are read one after the other, the items of a
//! feed in the order in which the feed parser hands them out; every failure
//! ends the run.

use vstd::prelude::*;
use vstd::pervasive::unreached;
use crate::article::{
    article_content, extract_full_content, law_one_text_per_paragraph, one_for_one,
    paragraph_texts, paragraphs_joined, selected_inner_html,
};
use crate::book::{
    chapter_of, chapter_shaped, distinct_file_names, holds_file_name,
    law_chapter_of_item_is_shaped, make_chapter, Book, ChapterView,
};
use crate::config::{Config, ConfigView};
use crate::container::{container_takes_all, is_rendering, render_book};
use crate::error::PipelineError;
use crate::feed::{parse_feed, parsed_feed, FeedItem, FeedItemView};
use crate::sanitize::sanitized_html;
use crate::mail::{
    addresses_valid, message_of, prepare_message, OutgoingMessage, OutgoingMessageView,
};
use crate::resolver::{resolution_of, resolve_item, Resolution, ResolutionView};
use crate::text::views;
use crate::title::file_name_of;

verus! {

/// The path of the book file.
pub open spec fn output_path() -> Seq<char> {
    "rss_feed.epub"@
}

/// What a run is waiting for.
#[derive(Clone, Copy, Debug, PartialEq, Eq, Structural)]
pub enum Phase {
    /// A feed document has been asked for.
    AwaitingFeed,
    /// An article page has been asked for.
    AwaitingArticle,
    /// The book file is to be written.
    AwaitingWrite,
    /// The message is to be sent.
    AwaitingSend,
    /// The run has ended well.
    Finished,
    /// The run has been abandoned.
    Failed,
}

/// What has happened to the action that a run asked for.
#[derive(Clone, Debug, PartialEq, Eq)]
pub enum Event {
    /// The feed document has arrived; this is its text.
    FeedFetched(String),
    /// The article page has arrived; this is its text.
    ArticleFetched(String),
    /// The document or the page could not be fetched.
    FetchFailed,
    /// The book file has been written.
    BookWritten,
    /// The book file could not be created or written.
    WriteFailed,
    /// The message has been sent.
    EmailSent,
    /// The book file could not be read back for the message.
    AttachmentUnreadable,
    /// The relay could not be reached, or refused the credentials or the
    /// message.
    SendFailed,
}

/// An event as a mathematical value: the variants of [`Event`], with texts
/// as sequences of characters.
pub ghost enum EventView {
    FeedFetched(Seq<char>),
    ArticleFetched(Seq<char>),
    FetchFailed,
    BookWritten,
    WriteFailed,
    EmailSent,
    AttachmentUnreadable,
    SendFailed,
}

impl View for Event {
    type V = EventView;

    open spec fn view(&self) -> EventView {
        match self {
            Event::FeedFetched(document) => EventView::FeedFetched(document@),
            Event::ArticleFetched(page) => EventView::ArticleFetched(page@),
            Event::FetchFailed => EventView::FetchFailed,
            Event::BookWritten => EventView::BookWritten,
            Event::WriteFailed => EventView::WriteFailed,
            Event::EmailSent => EventView::EmailSent,
            Event::AttachmentUnreadable => EventView::AttachmentUnreadable,
            Event::SendFailed => EventView::SendFailed,
        }
    }
}

/// What a run asks its caller to do.
#[derive(Clone, Debug, PartialEq, Eq)]
pub enum Action {
    /// Fetch the feed document at this address.
    FetchFeed(String),
    /// Fetch the article page at this address.
    FetchArticle(String),
    /// Write the finished book to its file, in place of what may be there.
    WriteBook {
        /// The path of the file.
        path: String,
        /// The bytes of the file.
        bytes: Vec<u8>,
    },
    /// Send this message.
    SendEmail(OutgoingMessage),
    /// Nothing is left to do.
    Finish,
    /// Give up, for this reason.
    Abort(PipelineError),
}

/// An action as a mathematical value: the variants of [`Action`], with
/// texts as sequences of characters and without the path and the bytes of
/// the book.
pub ghost enum Plan {
    FetchFeed(Seq<char>),
    FetchArticle(Seq<char>),
    WriteBook,
    SendEmail(OutgoingMessageView),
    Finish,
    Abort(PipelineError),
}

impl Action {
    /// The plan that an action carries.
    pub open spec fn plan(&self) -> Plan {
        match self {
            Action::FetchFeed(address) => Plan::FetchFeed(address@),
            Action::FetchArticle(address) => Plan::FetchArticle(address@),
            Action::WriteBook { .. } => Plan::WriteBook,
            Action::SendEmail(message) => Plan::SendEmail(message@),
            Action::Finish => Plan::Finish,
            Action::Abort(error) => Plan::Abort(*error),
        }
    }
}

/// A run as a mathematical value.
pub ghost struct RunView {
    /// What the run works from.
    pub config: ConfigView,
    /// The position of the feed that is being read; the number of feeds
    /// once all are read.
    pub feed_index: nat,
    /// The items of the feed that is being read.
    pub items: Seq<FeedItemView>,
    /// The position of the item that is being resolved.
    pub item_index: nat,
    /// The chapters so far.
    pub chapters: Seq<ChapterView>,
    /// What the run is waiting for.
    pub phase: Phase,
}

/// How far the items of a feed can be turned into chapters without a fetch.
pub ghost enum Progress {
    /// All items are done.
    Exhausted { chapters: Seq<ChapterView> },
    /// The item at `index` needs the article at `link`.
    NeedsArticle { index: nat, chapters: Seq<ChapterView>, link: Seq<char> },
    /// An item could not be turned into a chapter.
    Failed { chapters: Seq<ChapterView>, error: PipelineError },
}

/// The chapters with one more at the end, or `None` where its file name is
/// taken.
pub open spec fn added(chapters: Seq<ChapterView>, chapter: ChapterView) -> Option<
    Seq<ChapterView>,
> {
    if holds_file_name(chapters, chapter.file_name) {
        None
    } else {
        Some(chapters.push(chapter))
    }
}

/// Works through the items from position `from` on. An item without a
/// title is passed over. An item whose content is at hand becomes a chapter.
/// The first item that needs its article, or that fails, ends the work.
pub open spec fn advance(
    items: Seq<FeedItemView>,
    from: nat,
    chapters: Seq<ChapterView>,
) -> Progress
    decreases items.len() - from,
{
    if from >= items.len() {
        Progress::Exhausted { chapters }
    } else {
        match items[from as int].title {
            None => advance(items, from + 1, chapters),
            Some(title) => match resolution_of(items[from as int]) {
                ResolutionView::NeedsArticle(link) => Progress::NeedsArticle {
                    index: from,
                    chapters,
                    link,
                },
                ResolutionView::Failed(error) => Progress::Failed { chapters, error },
                ResolutionView::Content(content) => match added(
                    chapters,
                    chapter_of(title, content),
                ) {
                    Some(longer) => advance(items, from + 1, longer),
                    None => Progress::Failed { chapters, error: PipelineError::Assembly },
                },
            },
        }
    }
}

/// The run abandoned for this reason.
pub open spec fn failed(run: RunView, error: PipelineError) -> (RunView, Plan) {
    (RunView { phase: Phase::Failed, ..run }, Plan::Abort(error))
}

/// The run turned to the feed at position `index`: that feed is asked for,
/// or, where there is none, the book is to be written.
pub open spec fn enter_feed_spec(run: RunView, index: nat) -> (RunView, Plan) {
    let cleared = RunView { feed_index: index, items: Seq::empty(), item_index: 0, ..run };
    if index < run.config.rss_feeds.len() {
        (
            RunView { phase: Phase::AwaitingFeed, ..cleared },
            Plan::FetchFeed(run.config.rss_feeds[index as int]),
        )
    } else {
        (RunView { phase: Phase::AwaitingWrite, ..cleared }, Plan::WriteBook)
    }
}

/// The run carried on from the item at its position.
pub open spec fn resume_items_spec(run: RunView) -> (RunView, Plan) {
    match advance(run.items, run.item_index, run.chapters) {
        Progress::NeedsArticle { index, chapters, link } => (
            RunView { item_index: index, chapters, phase: Phase::AwaitingArticle, ..run },
            Plan::FetchArticle(link),
        ),
        Progress::Failed { chapters, error } => failed(RunView { chapters, ..run }, error),
        Progress::Exhausted { chapters } => enter_feed_spec(
            RunView { chapters, ..run },
            run.feed_index + 1,
        ),
    }
}

/// A new run and its first action.
pub open spec fn start_spec(config: ConfigView) -> (RunView, Plan) {
    enter_feed_spec(
        RunView {
            config,
            feed_index: 0,
            items: Seq::empty(),
            item_index: 0,
            chapters: Seq::empty(),
            phase: Phase::AwaitingFeed,
        },
        0,
    )
}

/// Whether an event answers what the run is waiting for.
pub open spec fn accepts(run: RunView, event: EventView) -> bool {
    match run.phase {
        Phase::AwaitingFeed => event is FeedFetched || event is FetchFailed,
        Phase::AwaitingArticle => event is ArticleFetched || event is FetchFailed,
        Phase::AwaitingWrite => event is BookWritten || event is WriteFailed,
        Phase::AwaitingSend => event is EmailSent || event is AttachmentUnreadable
            || event is SendFailed,
        Phase::Finished => false,
        Phase::Failed => false,
    }
}

/// The run after an event, and the next action.
pub open spec fn step_spec(run: RunView, event: EventView) -> (RunView, Plan) {
    match event {
        EventView::FeedFetched(document) => match parsed_feed(document) {
            Some(items) => resume_items_spec(RunView { items, item_index: 0, ..run }),
            None => failed(run, PipelineError::Parse),
        },
        EventView::ArticleFetched(page) => match article_content(page) {
            Ok(content) => match added(
                run.chapters,
                chapter_of(run.items[run.item_index as int].title->0, content),
            ) {
                Some(chapters) => resume_items_spec(
                    RunView { chapters, item_index: run.item_index + 1, ..run },
                ),
                None => failed(run, PipelineError::Assembly),
            },
            Err(error) => failed(run, error),
        },
        EventView::FetchFailed => failed(run, PipelineError::Network),
        EventView::BookWritten => if addresses_valid(run.config.email) {
            (
                RunView { phase: Phase::AwaitingSend, ..run },
                Plan::SendEmail(message_of(output_path(), run.config.email)),
            )
        } else {
            failed(run, PipelineError::Validation)
        },
        EventView::WriteFailed => failed(run, PipelineError::Io),
        EventView::EmailSent => (RunView { phase: Phase::Finished, ..run }, Plan::Finish),
        EventView::AttachmentUnreadable => failed(run, PipelineError::Io),
        EventView::SendFailed => failed(run, PipelineError::Transport),
    }
}

/// Whether the chapters can stand in the book of a run: no two of them have
/// the same file name, and each has the shape of the chapter of an item.
pub open spec fn chapters_fit(chapters: Seq<ChapterView>) -> bool {
    &&& distinct_file_names(chapters)
    &&& forall|i: int| 0 <= i < chapters.len() ==> chapter_shaped(#[trigger] chapters[i])
}

/// What holds of every run.
pub open spec fn run_well_formed(run: RunView) -> bool {
    &&& chapters_fit(run.chapters)
    &&& run.feed_index <= run.config.rss_feeds.len()
    &&& run.phase is AwaitingFeed ==> run.feed_index < run.config.rss_feeds.len()
    &&& run.phase is AwaitingArticle ==> {
        &&& run.feed_index < run.config.rss_feeds.len()
        &&& run.item_index < run.items.len()
        &&& run.items[run.item_index as int].title is Some
    }
}

/// Whether a run and an action are what was planned. Where the plan is to
/// write the book, the container has the last word. Either it has taken
/// every chapter, and the action carries, for the file at the fixed path,
/// bytes that are a rendering of the run's chapters. Or the container could
/// not be made or finished, or has refused a chapter, and the run is
/// abandoned with `Assembly`.
pub open spec fn outcome_matches(
    planned: (RunView, Plan),
    reached: RunView,
    action: Action,
) -> bool {
    if planned.1 is WriteBook {
        ||| {
            &&& action matches Action::WriteBook { path, bytes }
            &&& path@ == output_path()
            &&& container_takes_all(planned.0.chapters)
            &&& is_rendering(bytes@, planned.0.chapters)
            &&& reached == planned.0
        }
        ||| {
            &&& action.plan() == Plan::Abort(PipelineError::Assembly)
            &&& reached == failed(planned.0, PipelineError::Assembly).0
        }
    } else {
        action.plan() == planned.1 && reached == planned.0
    }
}

/// A run: the configuration, the place in the feeds and their items, and the
/// book so far.
#[derive(Debug)]
pub struct Run {
    config: Config,
    feed_index: usize,
    items: Vec<FeedItem>,
    item_index: usize,
    book: Book,
    phase: Phase,
}

impl View for Run {
    type V = RunView;

    closed spec fn view(&self) -> RunView {
        RunView {
            config: self.config@,
            feed_index: self.feed_index as nat,
            items: views(self.items@),
            item_index: self.item_index as nat,
            chapters: self.book@,
            phase: self.phase,
        }
    }
}

impl Run {
    /// What holds of every run.
    pub open spec fn well_formed(&self) -> bool {
        run_well_formed(self@)
    }

    /// Starts a run: the first feed is asked for, or, where the
    /// configuration names no feed, the empty book is to be written.
    pub fn start(config: Config) -> (started: (Run, Action))
        ensures
            started.0.well_formed(),
            outcome_matches(start_spec(config@), started.0@, started.1),
    {
        let mut run = Run {
            config,
            feed_index: 0,
            items: Vec::new(),
            item_index: 0,
            book: Book::new(),
            phase: Phase::AwaitingFeed,
        };
        let action = run.enter_feed(0);
        (run, action)
    }

    /// What the run is waiting for.
    pub fn phase(&self) -> (phase: Phase)
        ensures
            phase == self@.phase,
    {
        self.phase
    }

    /// The book so far.
    pub fn book(&self) -> (book: &Book)
        ensures
            book@ == self@.chapters,
    {
        &self.book
    }

    /// Whether an event answers what the run is waiting for.
    pub fn accepts_event(&self, event: &Event) -> (accepted: bool)
        ensures
            accepted == accepts(self@, event@),
    {
        match self.phase {
            Phase::AwaitingFeed => match event {
                Event::FeedFetched(_) => true,
                Event::FetchFailed => true,
                _ => false,
            },
            Phase::AwaitingArticle => match event {
                Event::ArticleFetched(_) => true,
                Event::FetchFailed => true,
                _ => false,
            },
            Phase::AwaitingWrite => match event {
                Event::BookWritten => true,
                Event::WriteFailed => true,
                _ => false,
            },
            Phase::AwaitingSend => match event {
                Event::EmailSent => true,
                Event::AttachmentUnreadable => true,
                Event::SendFailed => true,
                _ => false,
            },
            Phase::Finished => false,
            Phase::Failed => false,
        }
    }

    /// Takes in what has happened to the action that the run asked for, and
    /// hands out the next action.
    pub fn step(&mut self, event: Event) -> (action: Action)
        requires
            old(self).well_formed(),
            accepts(old(self)@, event@),
        ensures
            final(self).well_formed(),
            outcome_matches(step_spec(old(self)@, event@), final(self)@, action),
    {
        match event {
            Event::FeedFetched(document) => match parse_feed(document.as_str()) {
                Ok(items) => {
                    self.items = items;
                    self.item_index = 0;
                    self.resume_items()
                },
                Err(error) => self.fail(error),
            },
            Event::ArticleFetched(page) => self.take_article(page.as_str()),
            Event::FetchFailed => self.fail(PipelineError::Network),
            Event::BookWritten => match prepare_message("rss_feed.epub", &self.config.email) {
                Ok(message) => {
                    self.phase = Phase::AwaitingSend;
                    Action::SendEmail(message)
                },
                Err(error) => self.fail(error),
            },
            Event::WriteFailed => self.fail(PipelineError::Io),
            Event::EmailSent => {
                self.phase = Phase::Finished;
                Action::Finish
            },
            Event::AttachmentUnreadable => self.fail(PipelineError::Io),
            Event::SendFailed => self.fail(PipelineError::Transport),
        }
    }

    /// Abandons the run.
    fn fail(&mut self, error: PipelineError) -> (action: Action)
        requires
            chapters_fit(old(self)@.chapters),
            old(self)@.feed_index <= old(self)@.config.rss_feeds.len(),
        ensures
            final(self).well_formed(),
            final(self)@ == failed(old(self)@, error).0,
            action.plan() == failed(old(self)@, error).1,
    {
        self.phase = Phase::Failed;
        Action::Abort(error)
    }

    /// Turns to the feed at position `index`.
    fn enter_feed(&mut self, index: usize) -> (action: Action)
        requires
            chapters_fit(old(self)@.chapters),
            index <= old(self)@.config.rss_feeds.len(),
        ensures
            final(self).well_formed(),
            outcome_matches(enter_feed_spec(old(self)@, index as nat), final(self)@, action),
    {
        self.feed_index = index;
        self.items = Vec::new();
        self.item_index = 0;
        assert(self@.items =~= Seq::<FeedItemView>::empty());
        if index < self.config.rss_feeds.len() {
            self.phase = Phase::AwaitingFeed;
            Action::FetchFeed(self.config.rss_feeds[index].clone())
        } else {
            self.phase = Phase::AwaitingWrite;
            match render_book(&self.book) {
                Ok(bytes) => Action::WriteBook { path: "rss_feed.epub".to_owned(), bytes },
                Err(error) => {
                    self.phase = Phase::Failed;
                    Action::Abort(error)
                },
            }
        }
    }

    /// Makes a chapter of the article that the run has been waiting for, and
    /// carries on with the items behind it.
    fn take_article(&mut self, page: &str) -> (action: Action)
        requires
            old(self).well_formed(),
            old(self)@.phase is AwaitingArticle,
        ensures
            final(self).well_formed(),
            outcome_matches(
                step_spec(old(self)@, EventView::ArticleFetched(page@)),
                final(self)@,
                action,
            ),
    {
        let content = match extract_full_content(page) {
            Ok(content) => content,
            Err(error) => {
                return self.fail(error);
            },
        };
        let chapter = match &self.items[self.item_index].title {
            Some(title) => {
                proof {
                    law_chapter_of_item_is_shaped(title@, content@);
                }
                make_chapter(title.as_str(), content.as_str())
            },
            None => unreached(),
        };
        match self.book.add_chapter(chapter) {
            Ok(_) => {
                let items = self.items.len();
                assert(self.item_index < items);
                self.item_index = self.item_index + 1;
                self.resume_items()
            },
            Err(error) => self.fail(error),
        }
    }

    /// Carries on from the item at the run's position.
    fn resume_items(&mut self) -> (action: Action)
        requires
            chapters_fit(old(self)@.chapters),
            old(self)@.feed_index < old(self)@.config.rss_feeds.len(),
            old(self)@.item_index <= old(self)@.items.len(),
        ensures
            final(self).well_formed(),
            outcome_matches(resume_items_spec(old(self)@), final(self)@, action),
    {
        let ghost target = advance(old(self)@.items, old(self)@.item_index, old(self)@.chapters);
        let mut i: usize = self.item_index;
        while i < self.items.len()
            invariant
                self.item_index <= i <= self.items.len(),
                self@ == (RunView { chapters: self@.chapters, ..old(self)@ }),
                chapters_fit(self@.chapters),
                self@.feed_index < self@.config.rss_feeds.len(),
                advance(self@.items, i as nat, self@.chapters) == target,
                target == advance(old(self)@.items, old(self)@.item_index, old(self)@.chapters),
            decreases self.items.len() - i,
        {
            let item = &self.items[i];
            match &item.title {
                None => {},
                Some(title) => match resolve_item(item) {
                    Resolution::NeedsArticle(link) => {
                        self.item_index = i;
                        self.phase = Phase::AwaitingArticle;
                        return Action::FetchArticle(link);
                    },
                    Resolution::Failed(error) => {
                        return self.fail(error);
                    },
                    Resolution::Content(content) => {
                        let chapter = make_chapter(title.as_str(), content.as_str());
                        proof {
                            law_chapter_of_item_is_shaped(title@, content@);
                        }
                        match self.book.add_chapter(chapter) {
                            Ok(_) => {},
                            Err(error) => {
                                return self.fail(error);
                            },
                        }
                    },
                },
            }
            i += 1;
        }
        let feeds = self.config.rss_feeds.len();
        assert(self.feed_index < feeds);
        self.enter_feed(self.feed_index + 1)
    }
}

/// What becomes of an item whose content is at hand, once that content is
/// sanitized: a failure where the sanitizer reports an error or the file
/// name is taken, else one more chapter, whose body is the sanitized
/// content inside exactly one paragraph tag.
pub open spec fn after_local_item(
    items: Seq<FeedItemView>,
    at: nat,
    chapters: Seq<ChapterView>,
    title: Seq<char>,
    raw: Seq<char>,
) -> Progress {
    match sanitized_html(raw) {
        None => Progress::Failed { chapters, error: PipelineError::Sanitization },
        Some(content) => if holds_file_name(chapters, file_name_of(title)) {
            Progress::Failed { chapters, error: PipelineError::Assembly }
        } else {
            advance(
                items,
                at + 1,
                chapters.push(
                    ChapterView {
                        file_name: file_name_of(title),
                        title: file_name_of(title),
                        body: "<p>"@ + content + "</p>"@,
                    },
                ),
            )
        },
    }
}

/// An item without a title makes no chapter and needs no fetch.
pub proof fn law_untitled_item_passed_over(
    items: Seq<FeedItemView>,
    at: nat,
    chapters: Seq<ChapterView>,
)
    requires
        at < items.len(),
        items[at as int].title is None,
    ensures
        advance(items, at, chapters) == advance(items, at + 1, chapters),
{
}

/// An item with inline content, empty or not, needs no fetch, whether it
/// has a link or not: its chapter body is the sanitized inline content
/// inside exactly one paragraph tag.
pub proof fn law_inline_content_is_used(
    items: Seq<FeedItemView>,
    at: nat,
    chapters: Seq<ChapterView>,
)
    requires
        at < items.len(),
        items[at as int].title is Some,
        items[at as int].content is Some,
    ensures
        advance(items, at, chapters) == after_local_item(
            items,
            at,
            chapters,
            items[at as int].title->0,
            items[at as int].content->0,
        ),
{
}

/// An item with neither inline content nor a link needs no fetch: its
/// chapter body is the sanitized placeholder inside one paragraph tag.
pub proof fn law_placeholder_is_used(
    items: Seq<FeedItemView>,
    at: nat,
    chapters: Seq<ChapterView>,
)
    requires
        at < items.len(),
        items[at as int].title is Some,
        items[at as int].content is None,
        items[at as int].link is None,
    ensures
        advance(items, at, chapters) == after_local_item(
            items,
            at,
            chapters,
            items[at as int].title->0,
            "No content available"@,
        ),
{
}

/// The work stopped at the item at `index`, which needs the article at
/// `link`.
pub open spec fn stopped_for_article(
    index: nat,
    chapters: Seq<ChapterView>,
    link: Seq<char>,
) -> Progress {
    Progress::NeedsArticle { index, chapters, link }
}

/// What the article page makes of the item that was waiting for it: a
/// failure where the page cannot be taken apart or sanitized or the file
/// name is taken, else one more chapter, whose body is the content of the
/// page inside one paragraph tag, and the run carried on behind the item.
pub open spec fn after_article(run: RunView, page: Seq<char>) -> (RunView, Plan) {
    match article_content(page) {
        Err(error) => failed(run, error),
        Ok(content) => {
            let name = file_name_of(run.items[run.item_index as int].title->0);
            if holds_file_name(run.chapters, name) {
                failed(run, PipelineError::Assembly)
            } else {
                resume_items_spec(
                    RunView {
                        chapters: run.chapters.push(
                            ChapterView {
                                file_name: name,
                                title: name,
                                body: "<p>"@ + content + "</p>"@,
                            },
                        ),
                        item_index: run.item_index + 1,
                        ..run
                    },
                )
            }
        },
    }
}

/// Whether the article content is made of these paragraphs and their
/// texts: the HTML parser finds the paragraphs, each gives one text with
/// its hyperlinks taken out, and the content is the texts, joined with one
/// paragraph tag each and sanitized.
pub open spec fn made_of_paragraphs(
    page: Seq<char>,
    content: Seq<char>,
    paragraphs: Seq<Seq<char>>,
    stripped: Seq<Seq<char>>,
) -> bool {
    &&& selected_inner_html(page, "p"@) == Some(paragraphs)
    &&& paragraph_texts(paragraphs) == Some(stripped)
    &&& one_for_one(paragraphs, stripped)
    &&& sanitized_html(paragraphs_joined(stripped)) == Some(content)
}

/// Whether what the work through the items has reached fits: the chapters
/// fit, and a stop for an article is at an item that has a title.
pub open spec fn progress_fits(items: Seq<FeedItemView>, from: nat, progress: Progress) -> bool {
    match progress {
        Progress::Exhausted { chapters } => chapters_fit(chapters),
        Progress::NeedsArticle { index, chapters, link } => {
            &&& chapters_fit(chapters)
            &&& from <= index < items.len()
            &&& items[index as int].title is Some
        },
        Progress::Failed { chapters, error } => chapters_fit(chapters),
    }
}

/// An item with a link and without inline content needs its article: the
/// work stops at that item and asks for the page behind the link.
pub proof fn law_link_is_followed(items: Seq<FeedItemView>, at: nat, chapters: Seq<ChapterView>)
    requires
        at < items.len(),
        items[at as int].title is Some,
        items[at as int].content is None,
        items[at as int].link is Some,
    ensures
        advance(items, at, chapters) == stopped_for_article(
            at,
            chapters,
            items[at as int].link->0,
        ),
{
}

/// The article page that a run has been waiting for becomes the chapter of
/// the waiting item: its body is the content of the page inside one
/// paragraph tag.
pub proof fn law_article_becomes_chapter(run: RunView, page: Seq<char>)
    requires
        run.phase is AwaitingArticle,
    ensures
        step_spec(run, EventView::ArticleFetched(page)) == after_article(run, page),
{
}

/// The content of an article page is its paragraphs and nothing else: the
/// HTML parser finds the paragraph elements, each gives one text with its
/// hyperlinks taken out, the texts are joined with one paragraph tag each,
/// and the joined text is sanitized.
pub proof fn law_article_content_shape(page: Seq<char>)
    ensures
        article_content(page) matches Ok(content) ==> exists|
            paragraphs: Seq<Seq<char>>,
            stripped: Seq<Seq<char>>,
        | made_of_paragraphs(page, content, paragraphs, stripped),
{
    if let Ok(content) = article_content(page) {
        let paragraphs = selected_inner_html(page, "p"@)->0;
        let stripped = paragraph_texts(paragraphs)->0;
        law_one_text_per_paragraph(paragraphs);
        assert(made_of_paragraphs(page, content, paragraphs, stripped));
    }
}

/// A fetch that fails ends the run with `Network`, whichever feed or
/// article it was for, and an ended run takes no further event: nothing is
/// fetched, written or sent after it.
pub proof fn law_failed_fetch_ends_run(run: RunView)
    requires
        run.phase is AwaitingFeed || run.phase is AwaitingArticle,
    ensures
        accepts(run, EventView::FetchFailed),
        step_spec(run, EventView::FetchFailed) == failed(run, PipelineError::Network),
        forall|event: EventView| !accepts(step_spec(run, EventView::FetchFailed).0, event),
{
}

/// A run that names a feed begins by asking for the first one, and if that
/// fetch fails the run ends with `Network` before any book is written: no
/// chapter has been made and the book file has never been asked for.
pub proof fn law_first_fetch_failure(config: ConfigView)
    requires
        config.rss_feeds.len() > 0,
    ensures
        start_spec(config).1 == Plan::FetchFeed(config.rss_feeds[0]),
        start_spec(config).0.phase is AwaitingFeed,
        start_spec(config).0.chapters.len() == 0,
        step_spec(start_spec(config).0, EventView::FetchFailed).1 == Plan::Abort(
            PipelineError::Network,
        ),
        step_spec(start_spec(config).0, EventView::FetchFailed).0.phase is Failed,
{
}

/// A run that has finished or failed takes no event.
pub proof fn law_ended_run_is_final(run: RunView, event: EventView)
    requires
        run.phase is Finished || run.phase is Failed,
    ensures
        !accepts(run, event),
{
}

/// Working through items keeps the chapters fit for one book, and stops
/// for an article only at an item that has a title.
pub proof fn law_advance_keeps_chapters_fit(
    items: Seq<FeedItemView>,
    from: nat,
    chapters: Seq<ChapterView>,
)
    requires
        chapters_fit(chapters),
    ensures
        progress_fits(items, from, advance(items, from, chapters)),
    decreases items.len() - from,
{
    if from < items.len() {
        match items[from as int].title {
            None => law_advance_keeps_chapters_fit(items, from + 1, chapters),
            Some(title) => match resolution_of(items[from as int]) {
                ResolutionView::Content(content) => match added(
                    chapters,
                    chapter_of(title, content),
                ) {
                    Some(longer) => {
                        law_added_chapter_fits(chapters, title, content);
                        law_advance_keeps_chapters_fit(items, from + 1, longer);
                    },
                    None => {},
                },
                _ => {},
            },
        }
    }
}

/// The chapter of an item fits behind chapters that fit, unless its file
/// name is taken.
pub proof fn law_added_chapter_fits(
    chapters: Seq<ChapterView>,
    title: Seq<char>,
    content: Seq<char>,
)
    requires
        chapters_fit(chapters),
    ensures
        added(chapters, chapter_of(title, content)) matches Some(longer) ==> chapters_fit(longer),
{
    law_chapter_of_item_is_shaped(title, content);
}

/// Every step keeps a run well formed: in every state of a run no two
/// chapters have the same file name, every file name is safe, every chapter
/// is listed under its file name and every body is inside a paragraph tag.
pub proof fn law_step_keeps_well_formed(run: RunView, event: EventView)
    requires
        run_well_formed(run),
        accepts(run, event),
    ensures
        run_well_formed(step_spec(run, event).0),
{
    match event {
        EventView::FeedFetched(document) => {
            if let Some(items) = parsed_feed(document) {
                law_resume_keeps_well_formed(RunView { items, item_index: 0, ..run });
            }
        },
        EventView::ArticleFetched(page) => {
            if let Ok(content) = article_content(page) {
                let title = run.items[run.item_index as int].title->0;
                law_added_chapter_fits(run.chapters, title, content);
                if let Some(chapters) = added(run.chapters, chapter_of(title, content)) {
                    law_resume_keeps_well_formed(
                        RunView { chapters, item_index: run.item_index + 1, ..run },
                    );
                }
            }
        },
        _ => {},
    }
}

/// Carrying on with the items of a feed keeps a run well formed.
pub proof fn law_resume_keeps_well_formed(run: RunView)
    requires
        chapters_fit(run.chapters),
        run.feed_index < run.config.rss_feeds.len(),
    ensures
        run_well_formed(resume_items_spec(run).0),
{
    law_advance_keeps_chapters_fit(run.items, run.item_index, run.chapters);
}

/// A new run is well formed.
pub proof fn law_start_is_well_formed(config: ConfigView)
    ensures
        run_well_formed(start_spec(config).0),
{
}

/// The chapters that the work through the items has reached.
pub open spec fn chapters_reached(progress: Progress) -> Seq<ChapterView> {
    match progress {
        Progress::Exhausted { chapters } => chapters,
        Progress::NeedsArticle { index, chapters, link } => chapters,
        Progress::Failed { chapters, error } => chapters,
    }
}

/// Working through items only adds chapters, behind those that are there.
pub proof fn law_advance_only_adds(
    items: Seq<FeedItemView>,
    from: nat,
    chapters: Seq<ChapterView>,
)
    ensures
        chapters.is_prefix_of(chapters_reached(advance(items, from, chapters))),
    decreases items.len() - from,
{
    if from < items.len() {
        match items[from as int].title {
            None => law_advance_only_adds(items, from + 1, chapters),
            Some(title) => match resolution_of(items[from as int]) {
                ResolutionView::Content(content) => match added(
                    chapters,
                    chapter_of(title, content),
                ) {
                    Some(longer) => {
                        law_advance_only_adds(items, from + 1, longer);
                    },
                    None => {},
                },
                _ => {},
            },
        }
    }
}

/// A step only adds chapters, behind those that are there: the book keeps
/// its chapters in the order in which the items were processed.
pub proof fn law_step_only_adds(run: RunView, event: EventView)
    ensures
        run.chapters.is_prefix_of(step_spec(run, event).0.chapters),
{
    match event {
        EventView::FeedFetched(document) => {
            if let Some(items) = parsed_feed(document) {
                law_advance_only_adds(items, 0, run.chapters);
            }
        },
        EventView::ArticleFetched(page) => {
            if let Ok(content) = article_content(page) {
                let title = run.items[run.item_index as int].title->0;
                if let Some(chapters) = added(run.chapters, chapter_of(title, content)) {
                    law_advance_only_adds(run.items, run.item_index + 1, chapters);
                }
            }
        },
        _ => {},
    }
}

} // verus!
