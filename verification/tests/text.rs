use sentiment_analysis::text::{
    chars_of, first_line_of, is_whitespace_char, same_bytes, same_text, strip_marker, trim,
};

#[test]
fn whitespace_is_what_std_calls_whitespace() {
    for code in 0..=0x10ffffu32 {
        if let Some(c) = char::from_u32(code) {
            assert_eq!(is_whitespace_char(c), c.is_whitespace(), "U+{:04X}", code);
        }
    }
}

#[test]
fn whitespace_characters_by_name() {
    for c in [' ', '\t', '\n', '\u{b}', '\u{c}', '\r', '\u{85}', '\u{a0}', '\u{1680}', '\u{2000}',
        '\u{200a}', '\u{2028}', '\u{2029}', '\u{202f}', '\u{205f}', '\u{3000}']
    {
        assert!(is_whitespace_char(c), "U+{:04X}", c as u32);
    }
    for c in ['a', '0', '\0', '\u{8}', '\u{e}', '\u{1f}', '\u{7f}', '\u{200b}', '\u{180e}', '\u{feff}'] {
        assert!(!is_whitespace_char(c), "U+{:04X}", c as u32);
    }
}

#[test]
fn chars_of_lists_the_characters() {
    assert_eq!(chars_of(""), Vec::<char>::new());
    assert_eq!(chars_of("a\u{e9}\u{1f600}"), vec!['a', '\u{e9}', '\u{1f600}']);
}

#[test]
fn trim_removes_whitespace_at_both_ends() {
    assert_eq!(trim("  I am so happy today \n"), "I am so happy today");
    assert_eq!(trim("no padding"), "no padding");
    assert_eq!(trim("\u{2003}caf\u{e9}\u{a0}\u{3000}"), "caf\u{e9}");
    assert_eq!(trim("a  b"), "a  b");
}

#[test]
fn trim_of_blank_text_is_empty() {
    assert_eq!(trim(""), "");
    assert_eq!(trim(" "), "");
    assert_eq!(trim(" \t\r\n\u{2028}"), "");
}

#[test]
fn trim_agrees_with_std() {
    for text in ["", " ", "x", " x", "x ", " x ", "\n\nx y\t\t", "\u{85}x\u{1680}", "\u{200b}x\u{200b}",
        "  \u{1f600} smile \u{1f600}  "]
    {
        assert_eq!(trim(text), text.trim(), "{:?}", text);
    }
}

#[test]
fn trim_twice_is_trim_once() {
    for text in ["", "  a b  ", "\tx\n", "y"] {
        assert_eq!(trim(trim(text)), trim(text));
    }
}

#[test]
fn first_line_stops_at_the_line_feed() {
    assert_eq!(first_line_of("Bot: positive\nUser: next"), "Bot: positive");
    assert_eq!(first_line_of("one\ntwo\nthree"), "one");
    assert_eq!(first_line_of("\nsecond"), "");
    assert_eq!(first_line_of("only"), "only");
    assert_eq!(first_line_of(""), "");
}

#[test]
fn first_line_drops_a_carriage_return_before_the_line_feed() {
    assert_eq!(first_line_of("one\r\ntwo"), "one");
    assert_eq!(first_line_of("\r\ntwo"), "");
    assert_eq!(first_line_of("one\r\r\ntwo"), "one\r");
    assert_eq!(first_line_of("one\rtwo\nthree"), "one\rtwo");
    assert_eq!(first_line_of("one\r"), "one\r");
}

#[test]
fn first_line_agrees_with_std() {
    for text in ["", "a", "a\n", "a\nb", "a\r\nb", "a\r", "\n", "\r\n", "\r", "a\r\r\n", "caf\u{e9}\n\u{1f600}",
        "a\rb\nc"]
    {
        assert_eq!(first_line_of(text), text.lines().next().unwrap_or_default(), "{:?}", text);
    }
}

#[test]
fn strip_marker_removes_a_leading_marker() {
    assert_eq!(strip_marker("Bot: positive", "Bot:"), " positive");
    assert_eq!(strip_marker("Bot:", "Bot:"), "");
    assert_eq!(strip_marker("Bot:Bot: x", "Bot:"), "Bot: x");
    assert_eq!(strip_marker("anything", ""), "anything");
}

#[test]
fn strip_marker_keeps_text_without_the_marker() {
    assert_eq!(strip_marker("positive", "Bot:"), "positive");
    assert_eq!(strip_marker(" Bot: positive", "Bot:"), " Bot: positive");
    assert_eq!(strip_marker("bot: positive", "Bot:"), "bot: positive");
    assert_eq!(strip_marker("Bot", "Bot:"), "Bot");
    assert_eq!(strip_marker("", "Bot:"), "");
}

#[test]
fn same_text_compares_character_for_character() {
    assert!(same_text("", ""));
    assert!(same_text("neutral", "neutral"));
    assert!(same_text("caf\u{e9}", "caf\u{e9}"));
    assert!(!same_text("neutral", "Neutral"));
    assert!(!same_text("neutral", "neutra"));
    assert!(!same_text("", " "));
}

#[test]
fn same_bytes_compares_byte_for_byte() {
    assert!(same_bytes(b"", b""));
    assert!(same_bytes(b"abc", b"abc"));
    assert!(!same_bytes(b"abc", b"abd"));
    assert!(!same_bytes(b"abc", b"ab"));
    assert!(!same_bytes(b"", b"a"));
}
