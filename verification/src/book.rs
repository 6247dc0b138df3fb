//! Chapters, the book that collects them, and the container that the book is
//! written into.

use vstd::prelude::*;
use crate::article::{in_paragraph_tag, wrap_in_paragraph};
use crate::error::PipelineError;
use crate::text::views;
use crate::title::{chapter_file_name, file_name_of, law_file_name_is_safe, safe_file_name};

verus! {

/// One unit of content in the book.
#[derive(Clone, Debug, PartialEq, Eq)]
pub struct Chapter {
    /// The name of the chapter's file, by which the book identifies it.
    pub file_name: String,
    /// The title under which the chapter is listed.
    pub title: String,
    /// The chapter's content.
    pub body: String,
}

/// A chapter as a mathematical value.
pub ghost struct ChapterView {
    pub file_name: Seq<char>,
    pub title: Seq<char>,
    pub body: Seq<char>,
}

impl View for Chapter {
    type V = ChapterView;

    open spec fn view(&self) -> ChapterView {
        ChapterView { file_name: self.file_name@, title: self.title@, body: self.body@ }
    }
}

/// The chapter of an item with this title and this resolved content: the
/// file name comes from the title and is the listed title too, the body is
/// the content inside one paragraph tag.
pub open spec fn chapter_of(title: Seq<char>, content: Seq<char>) -> ChapterView {
    ChapterView {
        file_name: file_name_of(title),
        title: file_name_of(title),
        body: in_paragraph_tag(content),
    }
}

/// Whether a chapter has the shape of the chapter of an item: its file name
/// is safe for a container, it is listed under its file name, and its body
/// is some content inside one paragraph tag.
pub open spec fn chapter_shaped(chapter: ChapterView) -> bool {
    &&& safe_file_name(chapter.file_name)
    &&& chapter.title == chapter.file_name
    &&& exists|content: Seq<char>| chapter.body == #[trigger] in_paragraph_tag(content)
}

/// Whether one of the chapters has this file name.
pub open spec fn holds_file_name(chapters: Seq<ChapterView>, file_name: Seq<char>) -> bool {
    exists|i: int| 0 <= i < chapters.len() && (#[trigger] chapters[i]).file_name == file_name
}

/// Whether no two of the chapters have the same file name.
pub open spec fn distinct_file_names(chapters: Seq<ChapterView>) -> bool {
    forall|i: int, j: int|
        0 <= i < j < chapters.len() ==> (#[trigger] chapters[i]).file_name != (
        #[trigger] chapters[j]).file_name
}

/// Makes the chapter of an item from its title and its resolved content.
pub fn make_chapter(title: &str, content: &str) -> (chapter: Chapter)
    ensures
        chapter@ == chapter_of(title@, content@),
{
    let file_name = chapter_file_name(title);
    let listed = file_name.clone();
    Chapter { file_name, title: listed, body: wrap_in_paragraph(content) }
}

/// The chapters of a run, in the order in which the items were processed.
/// No two chapters of a book have the same file name.
#[derive(Debug)]
pub struct Book {
    chapters: Vec<Chapter>,
}

impl View for Book {
    type V = Seq<ChapterView>;

    closed spec fn view(&self) -> Seq<ChapterView> {
        views(self.chapters@)
    }
}

impl Book {
    /// What holds of every book: its file names are distinct.
    pub open spec fn well_formed(&self) -> bool {
        distinct_file_names(self@)
    }

    /// A book without chapters.
    pub fn new() -> (book: Book)
        ensures
            book@ == Seq::<ChapterView>::empty(),
            book.well_formed(),
    {
        Book { chapters: Vec::new() }
    }

    /// The number of chapters.
    pub fn len(&self) -> (count: usize)
        ensures
            count == self@.len(),
    {
        self.chapters.len()
    }

    /// The chapter at `index`, counted from 0.
    pub fn chapter(&self, index: usize) -> (chapter: &Chapter)
        requires
            index < self@.len(),
        ensures
            chapter@ == self@[index as int],
    {
        &self.chapters[index]
    }

    /// Whether the book has a chapter with this file name.
    pub fn contains_file_name(&self, file_name: &String) -> (found: bool)
        ensures
            found == holds_file_name(self@, file_name@),
    {
        let mut i: usize = 0;
        while i < self.chapters.len()
            invariant
                i <= self.chapters.len(),
                forall|k: int| 0 <= k < i ==> (#[trigger] self@[k]).file_name != file_name@,
            decreases self.chapters.len() - i,
        {
            if self.chapters[i].file_name == *file_name {
                assert(self@[i as int].file_name == file_name@);
                return true;
            }
            i += 1;
        }
        false
    }

    /// Adds a chapter at the end of the book. Fails with `Assembly`, and
    /// leaves the book as it was, exactly where the book already has a
    /// chapter with the same file name.
    pub fn add_chapter(&mut self, chapter: Chapter) -> (outcome: Result<(), PipelineError>)
        requires
            old(self).well_formed(),
        ensures
            final(self).well_formed(),
            outcome is Ok <==> !holds_file_name(old(self)@, chapter@.file_name),
            outcome is Ok ==> final(self)@ == old(self)@.push(chapter@),
            outcome matches Err(error) ==> error == PipelineError::Assembly && final(self)@ == old(
                self,
            )@,
    {
        if self.contains_file_name(&chapter.file_name) {
            return Err(PipelineError::Assembly);
        }
        self.chapters.push(chapter);
        assert(self@ =~= old(self)@.push(chapter@));
        Ok(())
    }
}

/// The chapter of an item has the shape of one, whatever the title and the
/// content.
pub proof fn law_chapter_of_item_is_shaped(title: Seq<char>, content: Seq<char>)
    ensures
        chapter_shaped(chapter_of(title, content)),
{
    law_file_name_is_safe(title);
    assert(chapter_of(title, content).body == in_paragraph_tag(content));
}

} // verus!
