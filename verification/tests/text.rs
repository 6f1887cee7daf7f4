use erudite::cases::{ExpectedOutput, OutputValidator};
use erudite::text::{bytes_equal, is_white_space, text_equal, trim};
use erudite::{Bytes, Output};
use regex::Regex;

#[test]
fn white_space_is_what_unicode_says() {
    for c in '\0'..=char::MAX {
        assert_eq!(is_white_space(c), c.is_whitespace(), "{:?}", c);
    }
}

#[test]
fn trimming_agrees_with_the_standard_library() {
    let texts = [
        "",
        " ",
        "\n\t \u{3000}",
        "a",
        " a",
        "a ",
        "  a b\tc \n",
        "\u{a0}\u{e4} \u{2028}\u{1f600}\u{205f}",
        "no white space",
        "\u{200b} not white space \u{200b}",
    ];
    for text in texts {
        assert_eq!(trim(text), text.trim(), "{:?}", text);
        assert_eq!(trim(trim(text)), trim(text));
    }
}

#[test]
fn comparing() {
    assert!(bytes_equal(b"", b""));
    assert!(bytes_equal(b"abc", b"abc"));
    assert!(!bytes_equal(b"abc", b"abd"));
    assert!(!bytes_equal(b"abc", b"ab"));
    assert!(text_equal("\u{e4}b", "\u{e4}b"));
    assert!(!text_equal("a\u{308}", "\u{e4}"));
}

#[test]
fn strings_have_to_match_exactly() {
    let expected = ExpectedOutput::from("olleh");
    assert!(expected.is_valid("olleh"));
    assert!(!expected.is_valid("olleh\n"));
    assert!(!expected.is_valid("hello"));
    assert!(!expected.is_valid(""));
    assert!(expected.clone().is_valid("olleh"));
    assert!(ExpectedOutput::from(String::from("")).is_valid(""));
}

#[test]
fn expressions_have_to_match_somewhere() {
    let digits = ExpectedOutput::from(Regex::new(r"^\d+$").unwrap());
    assert!(digits.is_valid("123"));
    assert!(!digits.is_valid("12a"));
    assert!(!digits.is_valid(""));
    let digit = ExpectedOutput::from(Regex::new(r"\d").unwrap());
    assert!(digit.is_valid("a2b"));
    assert!(!digit.is_valid("ab"));
    let at_end = ExpectedOutput::from(Regex::new(r"\d$").unwrap());
    assert!(at_end.is_valid("ab2"));
    assert!(!at_end.is_valid("a2b"));
    assert!(at_end.clone().is_valid("ab2"));
}

#[test]
fn validators_trim_if_asked() {
    let trimming = OutputValidator::from((true, ExpectedOutput::from("olleh")));
    assert!(trimming.is_valid("olleh"));
    assert!(trimming.is_valid(" \tolleh\r\n"));
    assert!(!trimming.is_valid("ol leh"));
    assert!(trimming.clone().is_valid("olleh\n"));

    let strict = OutputValidator::from((false, ExpectedOutput::from("olleh")));
    assert!(strict.is_valid("olleh"));
    assert!(!strict.is_valid("olleh\n"));
}

#[test]
fn bytes_may_be_text() {
    let bytes = Bytes::from(String::from("h\u{e4}llo"));
    assert_eq!(bytes.as_str(), Some("h\u{e4}llo"));
    assert_eq!(bytes.as_bytes(), "h\u{e4}llo".as_bytes());
    assert_eq!(bytes.to_str_lossy(), "h\u{e4}llo");
    assert!(!bytes.is_empty());
    assert!(Bytes::from(vec![]).is_empty());
    assert_eq!(Bytes::from(vec![]).as_str(), Some(""));
}

#[test]
fn bytes_may_be_no_text() {
    let bytes = Bytes::from(vec![0xf0, 0x28, 0x8c, 0x28]);
    assert_eq!(bytes.as_str(), None);
    assert_eq!(bytes.to_str_lossy(), "\u{fffd}(\u{fffd}(");
    assert_eq!(bytes.clone(), bytes);
}

#[test]
fn only_status_zero_is_success() {
    assert!(Output::new(vec![], vec![], 0).success());
    assert!(!Output::new(vec![], vec![], 1).success());
    assert!(!Output::new(vec![], vec![], -1).success());
    let output = Output::new(String::from("out"), b"err".to_vec(), 3);
    assert_eq!(output.stdout.as_str(), Some("out"));
    assert_eq!(output.stderr.as_str(), Some("err"));
    assert_eq!(output.status, 3);
    assert_eq!(output.clone(), output);
}
