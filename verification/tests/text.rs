use price_tracker::text::{
    before_char, chars_of, contains_text, parse_integer, remove_chars, replace_text, trimmed,
};

#[test]
fn chars_of_lists_the_characters() {
    assert_eq!(chars_of("a\u{20b9}b"), vec!['a', '\u{20b9}', 'b']);
    assert_eq!(chars_of(""), Vec::<char>::new());
}

#[test]
fn contains_text_finds_runs() {
    assert!(contains_text("https://www.amazon.in/dp/X", "amazon.in"));
    assert!(contains_text("amazon.in", "amazon.in"));
    assert!(contains_text("xamazon.in", "amazon.in"));
    assert!(!contains_text("amazon.i", "amazon.in"));
    assert!(!contains_text("amazon,in", "amazon.in"));
    assert!(!contains_text("", "a"));
    assert!(contains_text("", ""));
    assert!(contains_text("abc", ""));
    assert!(contains_text("aab", "ab"));
    assert!(contains_text("\u{20b9}ab", "ab"));
}

#[test]
fn contains_text_agrees_with_the_standard_library() {
    let texts = ["", "a", "ab", "aab", "abab", "ba", "flipkart.com", "xflipkart.comx"];
    for text in texts {
        for pattern in texts {
            assert_eq!(contains_text(text, pattern), text.contains(pattern), "{text:?} {pattern:?}");
        }
    }
}

#[test]
fn trimmed_drops_white_space_at_both_ends() {
    assert_eq!(trimmed("  a b  "), "a b");
    assert_eq!(trimmed(""), "");
    assert_eq!(trimmed(" \t\n\r\u{b}\u{c} "), "");
    assert_eq!(trimmed("\u{85}\u{a0}\u{1680}\u{2000}\u{200a}x\u{2028}\u{2029}\u{202f}\u{205f}\u{3000}"), "x");
    assert_eq!(trimmed("\u{200b}x\u{200e}"), "\u{200b}x\u{200e}");
    assert_eq!(trimmed("x"), "x");
}

#[test]
fn trimmed_agrees_with_the_standard_library() {
    for code in 0u32..0x3100 {
        if let Some(c) = char::from_u32(code) {
            let text = format!("{}a{}", c, c);
            assert_eq!(trimmed(&text), text.trim(), "U+{code:04X}");
        }
    }
}

#[test]
fn remove_chars_drops_every_occurrence() {
    assert_eq!(remove_chars("1,23,456", &vec![',']), "123456");
    assert_eq!(remove_chars("\u{20b9}1,000", &vec!['\u{20b9}', ',']), "1000");
    assert_eq!(remove_chars("abc", &vec![]), "abc");
    assert_eq!(remove_chars(",,,", &vec![',']), "");
    assert_eq!(remove_chars("", &vec![',']), "");
}

#[test]
fn replace_text_replaces_from_the_left() {
    assert_eq!(replace_text("a._SS40_.jpg", "._SS40_.", "._SL1500_."), "a._SL1500_.jpg");
    assert_eq!(replace_text("aaa", "aa", "b"), "ba");
    assert_eq!(replace_text("aaaa", "aa", "b"), "bb");
    assert_eq!(replace_text("abc", "x", "y"), "abc");
    assert_eq!(replace_text("", "x", "y"), "");
    assert_eq!(replace_text("xx", "x", ""), "");
    assert_eq!(replace_text("ab", "abc", "z"), "ab");
    assert_eq!(replace_text("/128/128/128/", "/128/128/", "/832/832/"), "/832/832/128/");
}

#[test]
fn replace_text_agrees_with_the_standard_library() {
    let texts = ["", "a", "aa", "aaa", "abab", "ababa", "xyz"];
    let patterns = ["", "a", "aa", "ab", "aba", "z"];
    for text in texts {
        for from in patterns {
            for to in ["", "q", "aa"] {
                assert_eq!(replace_text(text, from, to), text.replace(from, to));
            }
        }
    }
}

#[test]
fn before_char_stops_at_the_first_occurrence() {
    assert_eq!(before_char("1299.50", '.'), "1299");
    assert_eq!(before_char("1.2.3", '.'), "1");
    assert_eq!(before_char(".5", '.'), "");
    assert_eq!(before_char("1299", '.'), "1299");
    assert_eq!(before_char("", '.'), "");
}

#[test]
fn parse_integer_reads_signed_numerals() {
    assert_eq!(parse_integer("0"), Some(0));
    assert_eq!(parse_integer("007"), Some(7));
    assert_eq!(parse_integer("+12"), Some(12));
    assert_eq!(parse_integer("-12"), Some(-12));
    assert_eq!(parse_integer("-0"), Some(0));
    assert_eq!(parse_integer("2147483647"), Some(i32::MAX));
    assert_eq!(parse_integer("-2147483648"), Some(i32::MIN));
    assert_eq!(parse_integer("2147483648"), None);
    assert_eq!(parse_integer("-2147483649"), None);
    assert_eq!(parse_integer("99999999999999999999999"), None);
    assert_eq!(parse_integer(""), None);
    assert_eq!(parse_integer("+"), None);
    assert_eq!(parse_integer("-"), None);
    assert_eq!(parse_integer("1 "), None);
    assert_eq!(parse_integer("1a"), None);
    assert_eq!(parse_integer("--1"), None);
    assert_eq!(parse_integer("\u{0661}"), None);
}

#[test]
fn parse_integer_agrees_with_the_standard_library() {
    let texts = [
        "", "0", "1", "-1", "+1", "+-1", "12345", "000000000000012", "2147483647", "2147483648",
        "-2147483648", "-2147483649", "4294967296", "1e3", "1.0", " 1", "1_000", "0x10",
    ];
    for text in texts {
        assert_eq!(parse_integer(text), text.parse::<i32>().ok(), "{text:?}");
    }
}

#[test]
fn replace_text_puts_the_replacement_around_every_character_for_an_empty_pattern() {
    assert_eq!(replace_text("ab", "", "-"), "-a-b-");
    assert_eq!(replace_text("", "", "x"), "x");
    assert_eq!(replace_text("abc", "", ""), "abc");
}
