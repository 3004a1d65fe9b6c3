use config_loader::text::{replace, same_text};

#[test]
fn replace_puts_the_new_text_in_every_place() {
    assert_eq!(replace("a-b-c", "-", "+"), "a+b+c");
    assert_eq!(replace("$X and $X", "$X", "value"), "value and value");
}

#[test]
fn replace_keeps_a_text_without_occurrence() {
    assert_eq!(replace("abc", "x", "y"), "abc");
    assert_eq!(replace("ab", "abc", "y"), "ab");
    assert_eq!(replace("", "x", "y"), "");
}

#[test]
fn replace_does_not_see_overlapping_occurrences() {
    assert_eq!(replace("aaa", "aa", "b"), "ba");
    assert_eq!(replace("aaaa", "aa", "b"), "bb");
    assert_eq!(replace("ababa", "aba", "x"), "xba");
}

#[test]
fn replace_does_not_search_what_it_put_in() {
    assert_eq!(replace("ab", "a", "aa"), "aab");
    assert_eq!(replace("xx", "x", "xx"), "xxxx");
}

#[test]
fn replace_can_shorten_and_empty_a_text() {
    assert_eq!(replace("abab", "ab", ""), "");
    assert_eq!(replace("a.b.c", ".", ""), "abc");
}

#[test]
fn replace_with_nothing_to_find_keeps_the_text() {
    assert_eq!(replace("abc", "", "x"), "abc");
}

#[test]
fn replace_agrees_with_std_on_texts_with_a_pattern() {
    let texts = ["", "$A", "$A$A", "x$Ay$ABz$", "$$A$", "\u{e9}$A\u{1f600}$A"];
    for text in texts {
        assert_eq!(replace(text, "$A", "<v>"), text.replace("$A", "<v>"));
    }
}

#[test]
fn replace_counts_characters_not_bytes() {
    assert_eq!(replace("\u{e9}\u{e9}x\u{e9}", "\u{e9}", "e"), "eexe");
    assert_eq!(replace("a\u{1f600}b", "\u{1f600}b", "!"), "a!");
}

#[test]
fn same_text_compares_character_by_character() {
    assert!(same_text("toml", "toml"));
    assert!(!same_text("toml", "tom"));
    assert!(!same_text("toml", "TOML"));
    assert!(same_text("", ""));
}
