use rss_epub::title::{
    chapter_file_name, chapter_file_stem, keeps_title_char, remove_invalid_characters_from_title,
    to_file_name_char,
};

fn file_name_by_replacing(title: &str) -> String {
    let cleaned = remove_invalid_characters_from_title(title);
    format!("aa{}.xhtml", cleaned.replace("/", "_").replace(" ", "_").replace("'", "_"))
}

#[test]
fn removes_colon_question_mark_and_percent() {
    assert_eq!(remove_invalid_characters_from_title("Hi: there?"), "Hi there");
    assert_eq!(remove_invalid_characters_from_title("100% sure: why?"), "100 sure why");
}

#[test]
fn removes_every_non_ascii_character() {
    assert_eq!(remove_invalid_characters_from_title("Café crème"), "Caf crme");
    assert_eq!(remove_invalid_characters_from_title("日本語"), "");
    assert_eq!(remove_invalid_characters_from_title("a\u{80}b\u{7f}c"), "ab\u{7f}c");
}

#[test]
fn keeps_the_order_of_what_stays() {
    assert_eq!(remove_invalid_characters_from_title("a:b?c%d"), "abcd");
    assert_eq!(remove_invalid_characters_from_title(""), "");
}

#[test]
fn removal_leaves_spaces_slashes_and_apostrophes() {
    assert_eq!(remove_invalid_characters_from_title("it's a/b"), "it's a/b");
}

#[test]
fn file_name_drops_punctuation_and_joins_words() {
    assert_eq!(chapter_file_name("Hi: there?"), "aaHi_there.xhtml");
}

#[test]
fn stem_is_the_title_cleaned_and_joined() {
    assert_eq!(chapter_file_stem("Hi: there?"), "Hi_there");
    assert_eq!(chapter_file_stem("it's 50% a/b"), "it_s_50_a_b");
    assert_eq!(chapter_file_stem(""), "");
}

#[test]
fn file_name_replaces_space_slash_and_apostrophe() {
    assert_eq!(chapter_file_name("a/b c'd"), "aaa_b_c_d.xhtml");
    assert_eq!(chapter_file_name("  //''"), "aa______.xhtml");
}

#[test]
fn file_name_of_an_empty_title() {
    assert_eq!(chapter_file_name(""), "aa.xhtml");
    assert_eq!(chapter_file_name(":?%é"), "aa.xhtml");
}

#[test]
fn clean_title_passes_unchanged() {
    let title = "Clean_Title-42.final";
    assert_eq!(remove_invalid_characters_from_title(title), title);
    assert_eq!(chapter_file_name(title), format!("aa{}.xhtml", title));
}

#[test]
fn stem_of_a_stem_is_the_stem() {
    for title in ["Hi: there?", "a/b c'd", "Über 100% 'quoted'", "plain"] {
        let name = chapter_file_name(title);
        let stem = &name[2..name.len() - 6];
        assert_eq!(chapter_file_name(stem), name);
    }
}

#[test]
fn file_name_holds_no_forbidden_character() {
    let name = chapter_file_name("What's new: 50% off / today? — émoji 🎉");
    assert_eq!(name, "aaWhat_s_new_50_off___today__moji_.xhtml");
    assert!(name.is_ascii());
    for forbidden in [':', '?', '%', ' ', '/', '\''] {
        assert!(!name.contains(forbidden));
    }
}

#[test]
fn file_name_agrees_with_successive_replacement() {
    for title in ["Hi: there?", "a/b c'd", "x / y ' z", "ümlaut's 5%", "", "___"] {
        assert_eq!(chapter_file_name(title), file_name_by_replacing(title));
    }
}

#[test]
fn character_tests() {
    assert!(keeps_title_char('a'));
    assert!(keeps_title_char(' '));
    assert!(keeps_title_char('\u{7f}'));
    assert!(!keeps_title_char('\u{80}'));
    assert!(!keeps_title_char(':'));
    assert!(!keeps_title_char('?'));
    assert!(!keeps_title_char('%'));
    assert_eq!(to_file_name_char(' '), '_');
    assert_eq!(to_file_name_char('/'), '_');
    assert_eq!(to_file_name_char('\''), '_');
    assert_eq!(to_file_name_char('_'), '_');
    assert_eq!(to_file_name_char('x'), 'x');
}
