use api_gateway::text::{
    chars_of, contains_chars, contains_token, first_member, lowercase, lowered_chars,
    split_trimmed, string_of, to_lower, trimmed_string,
};

fn chars(s: &str) -> Vec<char> {
    s.chars().collect()
}

#[test]
fn ascii_letters_are_lowered_and_nothing_else() {
    assert_eq!(to_lower('A'), 'a');
    assert_eq!(to_lower('Z'), 'z');
    assert_eq!(to_lower('a'), 'a');
    assert_eq!(to_lower('@'), '@');
    assert_eq!(to_lower('['), '[');
    assert_eq!(to_lower('\u{c9}'), '\u{c9}');
    assert_eq!(lowered_chars("AbC-\u{c9}9"), chars("abc-\u{c9}9"));
    assert_eq!(lowercase("HTTPS/1.1 Zz"), "https/1.1 zz");
    assert_eq!(lowercase("\u{c9}COLE"), "\u{c9}cole");
    assert_eq!(lowercase(""), "");
}

#[test]
fn chars_and_strings_convert_both_ways() {
    assert_eq!(chars_of("h\u{e9}llo"), chars("h\u{e9}llo"));
    assert_eq!(chars_of(""), Vec::<char>::new());
    assert_eq!(string_of(&chars("h\u{e9}llo")), "h\u{e9}llo");
}

#[test]
fn search_finds_a_needle_anywhere() {
    let hay = chars("hello world");
    assert!(contains_chars(&hay, &chars("hello")));
    assert!(contains_chars(&hay, &chars("world")));
    assert!(contains_chars(&hay, &chars("o w")));
    assert!(contains_chars(&hay, &chars("")));
    assert!(contains_chars(&hay, &chars("hello world")));
    assert!(!contains_chars(&hay, &chars("hello world!")));
    assert!(!contains_chars(&hay, &chars("worlds")));
    assert!(!contains_chars(&chars(""), &chars("a")));
    assert!(contains_chars(&chars(""), &chars("")));
    assert!(contains_token(&hay, "lo wo"));
    assert!(!contains_token(&hay, "low"));
    assert!(contains_token(&chars("aab"), "ab"));
}

#[test]
fn first_segment_ends_at_the_first_comma() {
    assert_eq!(first_member(&chars("a, b, c")), chars("a"));
    assert_eq!(first_member(&chars("abc")), chars("abc"));
    assert_eq!(first_member(&chars(",abc")), chars(""));
    assert_eq!(first_member(&chars("")), chars(""));
    assert_eq!(first_member(&chars(" a ,")), chars(" a "));
}

#[test]
fn trimming_takes_white_space_off_both_ends() {
    assert_eq!(trimmed_string(&chars("  a b \t")), "a b");
    assert_eq!(trimmed_string(&chars("a")), "a");
    assert_eq!(trimmed_string(&chars("")), "");
    assert_eq!(trimmed_string(&chars(" \t\r\n\x0b\x0c")), "");
    assert_eq!(trimmed_string(&chars("\x1fa\x1f")), "\x1fa\x1f");
    assert_eq!(trimmed_string(&chars("\u{a0}\u{3000} a\u{2003}b \u{2028}")), "a\u{2003}b");
    assert_eq!(trimmed_string(&chars("\u{200b}a")), "\u{200b}a");
    assert_eq!(trimmed_string(&chars("  ")), "");
}

#[test]
fn trimming_agrees_with_the_standard_library() {
    for text in ["", " ", " a ", "\u{85}x\u{1680}", "\u{2000}\u{200a}y\u{202f}\u{205f}", "z"] {
        assert_eq!(trimmed_string(&chars(text)), text.trim());
    }
}

#[test]
fn lists_are_split_at_commas_and_trimmed() {
    assert_eq!(split_trimmed("a, b ,c"), vec!["a", "b", "c"]);
    assert_eq!(split_trimmed("http://localhost:3000"), vec!["http://localhost:3000"]);
    assert_eq!(split_trimmed(""), vec![""]);
    assert_eq!(split_trimmed(","), vec!["", ""]);
    assert_eq!(split_trimmed(" a ,, b,"), vec!["a", "", "b", ""]);
}
