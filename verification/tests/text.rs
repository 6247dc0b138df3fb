use rss_epub::text::{chars_of, concat3, replace_all, replace_chars, string_of};

#[test]
fn characters_of_a_string_and_back() {
    let chars = chars_of("héllo");
    assert_eq!(chars, vec!['h', 'é', 'l', 'l', 'o']);
    assert_eq!(string_of(&chars), "héllo");
    assert_eq!(chars_of(""), Vec::<char>::new());
    assert_eq!(string_of(&Vec::new()), "");
}

#[test]
fn concatenation() {
    assert_eq!(concat3("ab", "", "cd"), "abcd");
    assert_eq!(concat3("", "", ""), "");
    assert_eq!(concat3("<p>", "x", "</p>"), "<p>x</p>");
}

#[test]
fn replaces_every_occurrence() {
    assert_eq!(replace_all("a-b-c", "-", "+"), "a+b+c");
    assert_eq!(replace_all("this is old", "old", "new"), "this is new");
    assert_eq!(replace_all("abcabc", "bc", ""), "aa");
}

#[test]
fn occurrences_do_not_overlap() {
    assert_eq!(replace_all("aaa", "aa", "b"), "ba");
    assert_eq!(replace_all("aaaa", "aa", "b"), "bb");
    assert_eq!(replace_all("ababa", "aba", "x"), "xba");
}

#[test]
fn replacement_is_not_searched_again() {
    assert_eq!(replace_all("ab", "a", "aa"), "aab");
    assert_eq!(replace_all("xx", "x", "xx"), "xxxx");
}

#[test]
fn absent_pattern_changes_nothing() {
    assert_eq!(replace_all("hello", "z", "y"), "hello");
    assert_eq!(replace_all("hi", "hello", "y"), "hi");
    assert_eq!(replace_all("", "a", "b"), "");
}

#[test]
fn empty_pattern_is_found_before_each_character_and_at_the_end() {
    assert_eq!(replace_all("abc", "", "-"), "-a-b-c-");
    assert_eq!(replace_all("", "", "-"), "-");
}

#[test]
fn replacement_agrees_with_the_standard_library() {
    let texts = ["", "a", "aaa", "abcabc", "héllo wörld", "<a href=\"x\">y</a> and <a href=\"x\">y</a>"];
    let patterns = ["", "a", "aa", "bc", "ö", "<a href=\"x\">y</a>", "zzz"];
    let replacements = ["", "a", "xy", "é"];
    for text in texts {
        for pattern in patterns {
            for replacement in replacements {
                assert_eq!(
                    replace_all(text, pattern, replacement),
                    text.replace(pattern, replacement)
                );
            }
        }
    }
}

#[test]
fn replacement_on_characters() {
    let out = replace_chars(&chars_of("a.b.c"), &chars_of("."), &chars_of("::"));
    assert_eq!(string_of(&out), "a::b::c");
}
