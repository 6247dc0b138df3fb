//! Writing a book into its container, a zip-based e-book file.

use vstd::prelude::*;
use vstd::utf8::encode_utf8;
use crate::book::{Book, ChapterView};
use crate::error::PipelineError;

verus! {

/// The author that every book is given.
pub open spec fn book_author() -> Seq<char> {
    "RSS to EPUB Generator"@
}

/// The title that every book is given.
pub open spec fn book_title() -> Seq<char> {
    "RSS Feed Compilation"@
}

/// The title and the authors that a container has been given.
pub ghost struct ContainerMetadata {
    pub title: Seq<char>,
    pub authors: Seq<Seq<char>>,
}

/// The metadata of a new container: an empty title and no author.
pub open spec fn no_metadata() -> ContainerMetadata {
    ContainerMetadata { title: Seq::empty(), authors: Seq::empty() }
}

/// The metadata of every book.
pub open spec fn book_metadata() -> ContainerMetadata {
    ContainerMetadata { title: book_title(), authors: seq![book_author()] }
}

/// The chapter with this file name, title and body.
pub open spec fn chapter_entry(
    file_name: Seq<char>,
    title: Seq<char>,
    body: Seq<char>,
) -> ChapterView {
    ChapterView { file_name, title, body }
}

/// What a setting of a metadata key makes of the title and the authors: the
/// key `title` sets the title, the key `author` adds an author, or removes
/// all of them where the value is empty, and any other key leaves both.
pub open spec fn metadata_after(
    before: ContainerMetadata,
    key: Seq<char>,
    value: Seq<char>,
) -> ContainerMetadata {
    if key == "title"@ {
        ContainerMetadata { title: value, authors: before.authors }
    } else if key == "author"@ {
        if value.len() == 0 {
            ContainerMetadata { title: before.title, authors: Seq::empty() }
        } else {
            ContainerMetadata { title: before.title, authors: before.authors.push(value) }
        }
    } else {
        before
    }
}

/// The longest file name, in bytes, that a container can be handed: the
/// container puts a directory name of six bytes before it, and an entry
/// name has at most 65535 bytes.
pub const MAX_FILE_NAME_BYTES: usize = 65_529;

/// Whether a file name is short enough for a container.
pub open spec fn name_fits(file_name: Seq<char>) -> bool {
    encode_utf8(file_name).len() <= MAX_FILE_NAME_BYTES
}

/// Whether `part` stands somewhere in `bytes`.
pub open spec fn bytes_hold(bytes: Seq<u8>, part: Seq<u8>) -> bool {
    exists|at: int|
        0 <= at && at + part.len() <= bytes.len() && #[trigger] bytes.subrange(
            at,
            at + part.len(),
        ) == part
}

/// Whether a file name goes into a container as it is on every system: on
/// one family of systems the container writes `/` for each `\`.
pub open spec fn name_kept(file_name: Seq<char>) -> bool {
    !file_name.contains('\\')
}

/// What holds of the bytes of every e-book file that a container makes of
/// these chapters: there are some, and they hold the file name of each
/// chapter, as far as the name is kept, in its UTF-8 encoding.
pub open spec fn is_rendering(bytes: Seq<u8>, chapters: Seq<ChapterView>) -> bool {
    &&& bytes.len() > 0
    &&& forall|i: int|
        0 <= i < chapters.len() && name_kept((#[trigger] chapters[i]).file_name) ==> bytes_hold(
            bytes,
            encode_utf8(chapters[i].file_name),
        )
}

/// A container under construction: an `epub_builder::EpubBuilder` that
/// writes through `epub_builder::ZipLibrary`, in memory. The builder's type
/// is bound by a trait that the library keeps to itself, so it cannot be
/// declared on its own and is held here as an opaque field.
#[verifier::external_body]
pub struct BookBuilder {
    inner: epub_builder::EpubBuilder<epub_builder::ZipLibrary>,
}

/// The error of the container library, `epub_builder::Error`, taken as an
/// opaque value.
#[verifier::external_type_specification]
#[verifier::external_body]
pub struct ExContainerError(epub_builder::Error);

/// The chapters that a container has taken, in the order in which it took
/// them.
pub uninterp spec fn builder_chapters(builder: BookBuilder) -> Seq<ChapterView>;

/// The title and the authors that a container has been given.
pub uninterp spec fn builder_metadata(builder: BookBuilder) -> ContainerMetadata;

/// Whether a container that holds the chapters `held` takes one more
/// chapter, whose file name is short enough.
pub uninterp spec fn container_takes(held: Seq<ChapterView>, entry: ChapterView) -> bool;

/// Whether a container takes the chapter at position `at`, behind those
/// before it: its file name is short enough and the container takes it.
pub open spec fn takes_at(chapters: Seq<ChapterView>, at: int) -> bool {
    name_fits(chapters[at].file_name) && container_takes(chapters.take(at), chapters[at])
}

/// Whether a new container takes these chapters, one after the other.
pub open spec fn container_takes_all(chapters: Seq<ChapterView>) -> bool {
    forall|at: int| 0 <= at < chapters.len() ==> #[trigger] takes_at(chapters, at)
}

/// Makes a container with `epub_builder::ZipLibrary::new` and
/// `epub_builder::EpubBuilder::new`. A new container has no chapter, an
/// empty title and no author.
#[verifier::external_body]
fn new_builder() -> (outcome: Result<BookBuilder, epub_builder::Error>)
    ensures
        outcome matches Ok(builder) ==> builder_chapters(builder) == Seq::<ChapterView>::empty()
            && builder_metadata(builder) == no_metadata(),
{
    let zip = epub_builder::ZipLibrary::new()?;
    Ok(BookBuilder { inner: epub_builder::EpubBuilder::new(zip)? })
}

/// Calls `EpubBuilder::metadata`. It never touches the chapters; where it
/// succeeds, the title and the authors are as `metadata_after` says. It
/// succeeds for the keys `author` and `title`, whose arms have no way to
/// fail.
#[verifier::external_body]
fn set_metadata(builder: &mut BookBuilder, key: &str, value: &str) -> (outcome: Result<
    (),
    epub_builder::Error,
>)
    ensures
        builder_chapters(*final(builder)) == builder_chapters(*old(builder)),
        (key@ == "author"@ || key@ == "title"@) ==> outcome is Ok,
        outcome is Ok ==> builder_metadata(*final(builder)) == metadata_after(
            builder_metadata(*old(builder)),
            key@,
            value@,
        ),
{
    builder.inner.metadata(key, value).map(|_| ())
}

/// Calls `EpubBuilder::add_content` with an `EpubContent` made of the file
/// name, the bytes of the body, the title and the reference type `Text`.
/// The zip writer behind it panics on an entry name of more than 65535
/// bytes, so the file name must be short enough. It never touches the
/// title and the authors; where it succeeds, the chapter stands behind
/// those that the container had. Whether it succeeds depends on the
/// chapters held and on the new one alone (a repeated entry name is
/// refused, the clock only stamps the entry), so that is given the name
/// `container_takes`.
#[verifier::external_body]
fn add_content(builder: &mut BookBuilder, file_name: &str, title: &str, body: &str) -> (outcome:
    Result<(), epub_builder::Error>)
    requires
        name_fits(file_name@),
    ensures
        builder_metadata(*final(builder)) == builder_metadata(*old(builder)),
        outcome is Ok <==> container_takes(
            builder_chapters(*old(builder)),
            chapter_entry(file_name@, title@, body@),
        ),
        outcome is Ok ==> builder_chapters(*final(builder)) == builder_chapters(
            *old(builder),
        ).push(chapter_entry(file_name@, title@, body@)),
{
    let content = epub_builder::EpubContent::new(file_name, body.as_bytes()).title(title).reftype(
        epub_builder::ReferenceType::Text,
    );
    builder.inner.add_content(content).map(|_| ())
}

/// Calls `EpubBuilder::generate` with a vector of bytes to write into. The
/// bytes hold a time stamp and a random identifier, so they have no name.
/// Of every outcome this holds: the zip writer has put an entry into the
/// bytes for each chapter that the container took, and an entry begins
/// with a header that holds the entry's name as it was given, the file name
/// behind a directory name.
#[verifier::external_body]
fn generate(builder: BookBuilder) -> (outcome: Result<Vec<u8>, epub_builder::Error>)
    ensures
        outcome matches Ok(bytes) ==> is_rendering(bytes@, builder_chapters(builder)),
{
    let mut bytes = Vec::new();
    builder.inner.generate(&mut bytes)?;
    Ok(bytes)
}

/// Fills a new container with a book: the author, the title, then the
/// chapters in their order. This succeeds exactly where every file name is
/// short enough and the container takes every chapter behind those before
/// it; the container then holds exactly the book, with its author and
/// title. Otherwise the outcome is `Assembly`.
pub fn fill(made: BookBuilder, book: &Book) -> (outcome: Result<BookBuilder, PipelineError>)
    requires
        builder_chapters(made) == Seq::<ChapterView>::empty(),
        builder_metadata(made) == no_metadata(),
    ensures
        outcome is Ok <==> container_takes_all(book@),
        outcome matches Ok(builder) ==> builder_chapters(builder) == book@ && builder_metadata(
            builder,
        ) == book_metadata(),
        outcome matches Err(error) ==> error == PipelineError::Assembly,
{
    let mut builder = made;
    proof {
        reveal_strlit("RSS to EPUB Generator");
        reveal_strlit("title");
        reveal_strlit("author");
        assert("author"@.len() != "title"@.len());
    }
    if set_metadata(&mut builder, "author", "RSS to EPUB Generator").is_err() {
        return Err(PipelineError::Assembly);
    }
    if set_metadata(&mut builder, "title", "RSS Feed Compilation").is_err() {
        return Err(PipelineError::Assembly);
    }
    let mut i: usize = 0;
    while i < book.len()
        invariant
            i <= book@.len(),
            builder_chapters(builder) == book@.take(i as int),
            builder_metadata(builder) == book_metadata(),
            forall|at: int| 0 <= at < i ==> #[trigger] takes_at(book@, at),
        decreases book@.len() - i,
    {
        let chapter = book.chapter(i);
        if chapter.file_name.as_str().as_bytes().len() > MAX_FILE_NAME_BYTES {
            assert(!takes_at(book@, i as int));
            return Err(PipelineError::Assembly);
        }
        let added = add_content(
            &mut builder,
            chapter.file_name.as_str(),
            chapter.title.as_str(),
            chapter.body.as_str(),
        );
        if added.is_err() {
            assert(!takes_at(book@, i as int));
            return Err(PipelineError::Assembly);
        }
        assert(takes_at(book@, i as int));
        i += 1;
    }
    Ok(builder)
}

/// Makes a container and fills it with a book. Where that succeeds, the
/// container has taken every chapter and holds exactly the book, with its
/// author and title; where the container cannot be made or refuses any of
/// it, the outcome is `Assembly`.
pub fn assemble(book: &Book) -> (outcome: Result<BookBuilder, PipelineError>)
    ensures
        outcome is Ok ==> container_takes_all(book@),
        outcome matches Ok(builder) ==> builder_chapters(builder) == book@ && builder_metadata(
            builder,
        ) == book_metadata(),
        outcome matches Err(error) ==> error == PipelineError::Assembly,
{
    match new_builder() {
        Ok(made) => fill(made, book),
        Err(_) => Err(PipelineError::Assembly),
    }
}

/// What becomes of a container's answer to being finished: its bytes are
/// handed on as they came, and its error, whatever it is, becomes
/// `Assembly`.
pub fn take_rendering<E>(answer: Result<Vec<u8>, E>) -> (outcome: Result<Vec<u8>, PipelineError>)
    ensures
        answer is Ok ==> outcome is Ok && outcome->Ok_0@ == answer->Ok_0@,
        answer is Err ==> outcome == Err::<Vec<u8>, PipelineError>(PipelineError::Assembly),
{
    match answer {
        Ok(bytes) => Ok(bytes),
        Err(_) => Err(PipelineError::Assembly),
    }
}

/// Finishes a container and hands out the bytes of the e-book file, as the
/// container made them: they hold an entry for each chapter that the
/// container has taken. Whether the container can be finished is the
/// container's to say; the outcome is `Assembly` where it cannot.
pub fn finish(builder: BookBuilder) -> (outcome: Result<Vec<u8>, PipelineError>)
    ensures
        outcome matches Ok(bytes) ==> is_rendering(bytes@, builder_chapters(builder)),
        outcome matches Err(error) ==> error == PipelineError::Assembly,
{
    take_rendering(generate(builder))
}

/// Writes a book into a container and hands out the bytes of the finished
/// e-book file. Where that succeeds, the container has taken every chapter
/// of the book, and the bytes hold an entry for each of them. The outcome
/// is `Assembly` where the container cannot be made or finished, or
/// refuses a part of the book.
pub fn render_book(book: &Book) -> (outcome: Result<Vec<u8>, PipelineError>)
    ensures
        outcome is Ok ==> container_takes_all(book@),
        outcome matches Ok(bytes) ==> is_rendering(bytes@, book@),
        outcome matches Err(error) ==> error == PipelineError::Assembly,
{
    match assemble(book) {
        Ok(builder) => finish(builder),
        Err(error) => Err(error),
    }
}

} // verus!
