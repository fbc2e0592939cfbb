use wallpaper::error::{Error, QuoteError};
use wallpaper::normalize::{quote, quote_uri, strip_file_uri, unquote};

#[test]
fn strip_file_uri_removes_the_scheme() {
    assert_eq!(strip_file_uri("file:///a/b.png"), "/a/b.png");
}

#[test]
fn strip_file_uri_keeps_a_plain_path() {
    assert_eq!(strip_file_uri("/a/b.png"), "/a/b.png");
}

#[test]
fn strip_file_uri_removes_the_scheme_once() {
    assert_eq!(strip_file_uri("file://file:///a"), "file:///a");
}

#[test]
fn strip_file_uri_of_the_scheme_alone_is_empty() {
    assert_eq!(strip_file_uri("file://"), "");
}

#[test]
fn strip_file_uri_keeps_a_scheme_that_is_cut_short() {
    assert_eq!(strip_file_uri("file:/"), "file:/");
    assert_eq!(strip_file_uri(""), "");
}

#[test]
fn strip_file_uri_looks_only_at_the_start() {
    assert_eq!(strip_file_uri("/a/file://b"), "/a/file://b");
}

#[test]
fn strip_file_uri_counts_characters_not_bytes() {
    assert_eq!(strip_file_uri("file:///ä/ö.png"), "/ä/ö.png");
}

#[test]
fn quote_wraps_in_double_quotes() {
    assert_eq!(quote("abc"), "\"abc\"");
    assert_eq!(quote(""), "\"\"");
}

#[test]
fn quote_escapes_quotes_and_backslashes() {
    assert_eq!(quote("a\"b\\c"), "\"a\\\"b\\\\c\"");
}

#[test]
fn quote_leaves_single_quotes_alone() {
    assert_eq!(quote("it's"), "\"it's\"");
}

#[test]
fn quote_uri_puts_the_scheme_in_front() {
    assert_eq!(quote_uri("/a/b.png"), "\"file:///a/b.png\"");
}

#[test]
fn unquote_reads_single_and_double_quotes() {
    assert_eq!(unquote("'file:///a/b.png'").unwrap(), "file:///a/b.png");
    assert_eq!(unquote("\"/a/b.png\"").unwrap(), "/a/b.png");
}

#[test]
fn unquote_resolves_escapes() {
    assert_eq!(unquote("'foo\\'bar\\n'").unwrap(), "foo'bar\n");
}

#[test]
fn unquote_reads_back_what_quote_wrote() {
    assert_eq!(unquote(&quote("a\"b\\c")).unwrap(), "a\"b\\c");
    assert_eq!(unquote(&quote_uri("/home/u/my pic.jpg")).unwrap(), "file:///home/u/my pic.jpg");
}

#[test]
fn unquote_rejects_a_string_that_is_too_short() {
    assert_eq!(unquote(""), Err(Error::Enquote(QuoteError::NotEnoughChars)));
    assert_eq!(unquote("'"), Err(Error::Enquote(QuoteError::NotEnoughChars)));
}

#[test]
fn unquote_rejects_an_unknown_quote() {
    assert_eq!(unquote("/a/b.png"), Err(Error::Enquote(QuoteError::UnrecognizedQuote)));
}

#[test]
fn unquote_rejects_a_missing_closing_quote() {
    assert_eq!(unquote("'abc"), Err(Error::Enquote(QuoteError::UnexpectedEOF)));
    assert_eq!(unquote("'abc'\n"), Err(Error::Enquote(QuoteError::UnexpectedEOF)));
}

#[test]
fn unquote_rejects_a_bare_quote_inside() {
    assert_eq!(unquote("'a'b'"), Err(Error::Enquote(QuoteError::IllegalChar)));
}

#[test]
fn unquote_rejects_an_unknown_escape() {
    assert_eq!(unquote("'a\\qb'"), Err(Error::Enquote(QuoteError::UnrecognizedEscape)));
}

#[test]
fn unquote_rejects_a_code_point_that_is_no_character() {
    assert_eq!(unquote("'\\ud800'"), Err(Error::Enquote(QuoteError::InvalidUnicode)));
}

#[test]
fn unquote_checks_the_ends_before_the_escapes() {
    assert_eq!(unquote("x\\q"), Err(Error::Enquote(QuoteError::UnrecognizedQuote)));
    assert_eq!(unquote("'\\q"), Err(Error::Enquote(QuoteError::UnexpectedEOF)));
    assert_eq!(unquote("'a\""), Err(Error::Enquote(QuoteError::UnexpectedEOF)));
    assert_eq!(unquote("''"), Ok(String::new()));
    assert_eq!(unquote("`a`"), Ok("a".to_string()));
}
