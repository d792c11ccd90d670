use codex_proxy::text::{
    char_list, decimal_text, ends_with, find, has_text, join, parse_unsigned, same_text,
    second_word, split_lines, split_second, starts_with, strip_prefix, white_space,
};

#[test]
fn lines_end_with_line_feeds() {
    for text in ["", "a", "a\n", "a\r\nb", "\n\n", "a\rb\r", "a\r\r\n", "\r\n", "x\n\ny"] {
        let expected: Vec<String> = text.lines().map(str::to_string).collect();
        assert_eq!(split_lines(text), expected);
    }
}

#[test]
fn white_space_is_what_unicode_says() {
    for number in 0..0x110000u32 {
        if let Some(c) = char::from_u32(number) {
            assert_eq!(white_space(c), c.is_whitespace());
        }
    }
}

#[test]
fn words_are_found() {
    for text in ["", " ", "a", " a ", "a b", "\ta\u{3000}b c", "a  \u{2003} "] {
        assert_eq!(
            second_word(text).as_deref(),
            text.split_whitespace().nth(1)
        );
    }
}

#[test]
fn segments_are_found() {
    for text in ["", "a", "a.b", "a.b.c", ".", "..", ".a"] {
        assert_eq!(split_second(text, '.').as_deref(), text.split('.').nth(1));
    }
}

#[test]
fn prefixes_and_suffixes_are_found() {
    for (text, part) in [("", ""), ("ab", ""), ("ab", "a"), ("ab", "b"), ("\u{e9}b", "\u{e9}"), ("a", "ab")] {
        assert_eq!(strip_prefix(text, part).as_deref(), text.strip_prefix(part));
        assert_eq!(starts_with(text, part), text.starts_with(part));
        assert_eq!(ends_with(text, part), text.ends_with(part));
        assert_eq!(has_text(text, part), text.contains(part));
        assert_eq!(same_text(text, part), text == part);
    }
}

#[test]
fn the_first_occurrence_is_found() {
    let at = |text: &str, part: &str| find(&char_list(text), &char_list(part));
    assert_eq!(at("aab", "ab"), Some(1));
    assert_eq!(at("abab", "ab"), Some(0));
    assert_eq!(at("ab", "ba"), None);
    assert_eq!(at("ab", ""), Some(0));
}

#[test]
fn numbers_are_written_and_read() {
    for number in [0u64, 9, 10, 65535, u64::MAX] {
        assert_eq!(decimal_text(number), number.to_string());
        assert_eq!(parse_unsigned(&decimal_text(number), u64::MAX), Some(number));
    }
    for text in ["", "+", "-1", "1a", "18446744073709551616", "99999999999999999999999", "+7", "007"] {
        assert_eq!(parse_unsigned(text, u64::MAX), text.parse::<u64>().ok());
    }
    assert_eq!(parse_unsigned("256", 255), None);
}

#[test]
fn texts_are_joined() {
    let parts = |list: &[&str]| list.iter().map(|part| part.to_string()).collect::<Vec<_>>();
    for list in [&[][..], &["a"], &["a", "b"], &["", ""], &["a", "", "b"]] {
        assert_eq!(join(&parts(list), ", "), list.join(", "));
    }
}
