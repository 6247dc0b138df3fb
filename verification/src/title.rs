//! From an item's title to the name of its chapter file.

use vstd::prelude::*;
use crate::text::{concat3, push_char};

verus! {

/// Whether a character may stay in a title: it is ASCII and none of `:`, `?`, `%`.
pub open spec fn title_char_kept(c: char) -> bool {
    c <= '\u{7f}' && c != ':' && c != '?' && c != '%'
}

/// The character that stands for `c` in a file name: `_` for a space, a slash
/// and an apostrophe, `c` itself otherwise.
pub open spec fn file_name_char(c: char) -> char {
    if c == '/' || c == ' ' || c == '\'' {
        '_'
    } else {
        c
    }
}

/// Whether a character passes through the whole transformation unchanged.
pub open spec fn clean_char(c: char) -> bool {
    title_char_kept(c) && c != '/' && c != ' ' && c != '\''
}

/// `title` without the characters that may not stay, the others in order.
pub open spec fn without_invalid_characters(title: Seq<char>) -> Seq<char> {
    title.filter(|c: char| title_char_kept(c))
}

/// The part of a chapter's file name that comes from the title.
pub open spec fn file_name_stem(title: Seq<char>) -> Seq<char> {
    without_invalid_characters(title).map_values(|c: char| file_name_char(c))
}

/// The name of the chapter file of an item with this title.
pub open spec fn file_name_of(title: Seq<char>) -> Seq<char> {
    "aa"@ + file_name_stem(title) + ".xhtml"@
}

/// Whether a file name is made of clean characters alone.
pub open spec fn safe_file_name(name: Seq<char>) -> bool {
    forall|i: int| 0 <= i < name.len() ==> clean_char(#[trigger] name[i])
}

/// Decides whether a character may stay in a title.
pub fn keeps_title_char(c: char) -> (kept: bool)
    ensures
        kept == title_char_kept(c),
{
    c <= '\u{7f}' && c != ':' && c != '?' && c != '%'
}

/// The character that stands for `c` in a file name.
pub fn to_file_name_char(c: char) -> (mapped: char)
    ensures
        mapped == file_name_char(c),
{
    if c == '/' || c == ' ' || c == '\'' {
        '_'
    } else {
        c
    }
}

/// Removes from a title every character that is not ASCII and every `:`, `?`
/// and `%`; what stays keeps its order.
pub fn remove_invalid_characters_from_title(content: &str) -> (cleaned: String)
    ensures
        cleaned@ == without_invalid_characters(content@),
{
    let mut cleaned = String::new();
    let source = content.chars();
    proof {
        reveal(Seq::filter);
    }
    for c in it: source
        invariant
            it.seq() == content@,
            cleaned@ == without_invalid_characters(content@.take(it.index())),
    {
        proof {
            let k = it.index();
            reveal(Seq::filter);
            assert(content@.take(k + 1).drop_last() =~= content@.take(k));
        }
        if keeps_title_char(c) {
            push_char(&mut cleaned, c);
        }
    }
    assert(content@.take(content@.len() as int) =~= content@);
    cleaned
}

/// The part of a chapter's file name that comes from the title: the title
/// without its invalid characters and with `_` for each space, slash and
/// apostrophe.
pub fn chapter_file_stem(title: &str) -> (stem: String)
    ensures
        stem@ == file_name_stem(title@),
{
    let cleaned = remove_invalid_characters_from_title(title);
    let mut stem = String::new();
    let source = cleaned.as_str().chars();
    let ghost whole = file_name_stem(title@);
    for c in it: source
        invariant
            it.seq() == cleaned@,
            cleaned@ == without_invalid_characters(title@),
            whole == file_name_stem(title@),
            stem@ == whole.take(it.index()),
    {
        push_char(&mut stem, to_file_name_char(c));
    }
    stem
}

/// The name of the chapter file of an item with this title: `aa`, the stem
/// that comes from the title, then `.xhtml`.
pub fn chapter_file_name(title: &str) -> (name: String)
    ensures
        name@ == file_name_of(title@),
{
    let stem = chapter_file_stem(title);
    concat3("aa", stem.as_str(), ".xhtml")
}

/// A title made of clean characters alone passes through unchanged: nothing
/// is removed from it and nothing in it is replaced.
pub proof fn law_clean_title_unchanged(title: Seq<char>)
    requires
        forall|i: int| 0 <= i < title.len() ==> clean_char(#[trigger] title[i]),
    ensures
        without_invalid_characters(title) == title,
        file_name_stem(title) == title,
        file_name_of(title) == "aa"@ + title + ".xhtml"@,
    decreases title.len(),
{
    reveal(Seq::filter);
    if title.len() > 0 {
        law_clean_title_unchanged(title.drop_last());
    }
}

/// The stem of a file name holds clean characters alone: ASCII, and none of
/// `:`, `?`, `%`, space, `/` and `'`.
pub proof fn law_stem_is_clean(title: Seq<char>)
    ensures
        forall|i: int|
            0 <= i < file_name_stem(title).len() ==> clean_char(
                #[trigger] file_name_stem(title)[i],
            ),
{
    assert forall|i: int| 0 <= i < file_name_stem(title).len() implies clean_char(
        #[trigger] file_name_stem(title)[i],
    ) by {
        title.lemma_filter_pred(|c: char| title_char_kept(c), i);
    }
}

/// Making a stem from a stem changes nothing.
pub proof fn law_stem_idempotent(title: Seq<char>)
    ensures
        file_name_stem(file_name_stem(title)) == file_name_stem(title),
{
    law_stem_is_clean(title);
    law_clean_title_unchanged(file_name_stem(title));
}

/// Removal goes character by character: what is removed from a title made of
/// two parts is what is removed from each part, and so for the stem.
pub proof fn law_stem_of_parts(first: Seq<char>, second: Seq<char>)
    ensures
        without_invalid_characters(first + second) == without_invalid_characters(first)
            + without_invalid_characters(second),
        file_name_stem(first + second) == file_name_stem(first) + file_name_stem(second),
{
    Seq::filter_distributes_over_add(first, second, |c: char| title_char_kept(c));
}

/// What becomes of a single character: it is dropped if it may not stay, and
/// otherwise a space, a slash and an apostrophe become `_` and any other
/// character stays as it is.
pub proof fn law_stem_of_char(c: char)
    ensures
        title_char_kept(c) ==> file_name_stem(seq![c]) == seq![file_name_char(c)],
        !title_char_kept(c) ==> file_name_stem(seq![c]) == Seq::<char>::empty(),
{
    reveal_with_fuel(Seq::filter, 2);
}

/// The file name of a chapter is safe for a container, whatever the title:
/// it is ASCII and holds none of `:`, `?`, `%`, space, `/` and `'`.
pub proof fn law_file_name_is_safe(title: Seq<char>)
    ensures
        safe_file_name(file_name_of(title)),
{
    law_stem_is_clean(title);
    reveal_strlit("aa");
    reveal_strlit(".xhtml");
}

} // verus!
