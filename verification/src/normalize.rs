//! Turns the values that desktops store into plain paths, and paths into the
//! quoted values that desktops expect.

use crate::error::{text_result, Error, ErrorView, QuoteError};
use crate::text::{chars_of, slice_of, starts_with_at};
use vstd::prelude::*;
use vstd::string::*;

verus! {

/// The scheme that desktops put in front of a path to make it a URI.
pub const FILE_SCHEME: &'static str = "file://";

/// The quote character that values are stored in.
pub const QUOTE: char = '"';

/// `s` without a leading `file://`; `s` itself where it has none.
pub open spec fn stripped(s: Seq<char>) -> Seq<char> {
    if FILE_SCHEME@.is_prefix_of(s) {
        s.subrange(FILE_SCHEME@.len() as int, s.len() as int)
    } else {
        s
    }
}

/// What one character becomes inside quotes: the quote character and the backslash
/// get a backslash in front, every other character stands for itself.
pub open spec fn escaped_char(quote: char, c: char) -> Seq<char> {
    if c == quote {
        seq!['\\', quote]
    } else if c == '\\' {
        seq!['\\', '\\']
    } else {
        seq![c]
    }
}

/// `s` with each of its characters escaped for `quote`.
pub open spec fn escaped(quote: char, s: Seq<char>) -> Seq<char>
    decreases s.len(),
{
    if s.len() == 0 {
        Seq::empty()
    } else {
        escaped_char(quote, s[0]) + escaped(quote, s.skip(1))
    }
}

/// `s` escaped and put between two `quote` characters.
pub open spec fn enquoted(quote: char, s: Seq<char>) -> Seq<char> {
    seq![quote] + escaped(quote, s) + seq![quote]
}

/// The stored value that stands for the file at `path`: its `file://` URI in double quotes.
pub open spec fn quoted_uri(path: Seq<char>) -> Seq<char> {
    enquoted(QUOTE, FILE_SCHEME@ + path)
}

/// The characters that a quoted string may begin and end with.
pub open spec fn is_quote(c: char) -> bool {
    c == '"' || c == '\'' || c == '`'
}

/// What `enquote::unescape` makes of `s` where `quote` may not stand in it bare: the text
/// with its escape sequences resolved, or the reason why it cannot be resolved.
pub uninterp spec fn unescape_value(s: Seq<char>, quote: char) -> Result<Seq<char>, QuoteError>;

/// Whether `s` begins with an escape sequence other than an escaped backslash or quote
/// character: a backslash and a character that is neither.
pub open spec fn begins_with_other_escape(s: Seq<char>) -> bool {
    s.len() >= 2 && s[0] == '\\' && s[1] != '\\' && !is_quote(s[1])
}

/// `rest` with `c` in front, where `rest` is a text and not a failure.
pub open spec fn prepended(c: char, rest: Result<Seq<char>, QuoteError>) -> Result<
    Seq<char>,
    QuoteError,
> {
    match rest {
        Ok(text) => Ok(seq![c] + text),
        Err(kind) => Err(kind),
    }
}

/// What the text between two `quote` characters reads as. It is read from left to right:
/// a bare `quote` may not stand in it; a character other than the backslash stands for
/// itself; a backslash before a backslash or a quote character stands for that character;
/// a backslash at the very end is a failure. Any other escape sequence, and all that
/// follows it, reads as `enquote::unescape` reads it.
pub open spec fn unescaped(s: Seq<char>, quote: char) -> Result<Seq<char>, QuoteError>
    decreases s.len(),
{
    if s.len() == 0 {
        Ok(Seq::empty())
    } else if s[0] == quote {
        Err(QuoteError::IllegalChar)
    } else if s[0] != '\\' {
        prepended(s[0], unescaped(s.skip(1), quote))
    } else if s.len() == 1 {
        Err(QuoteError::UnexpectedEOF)
    } else if s[1] == '\\' || is_quote(s[1]) {
        prepended(s[1], unescaped(s.skip(2), quote))
    } else {
        unescape_value(s, quote)
    }
}

/// What a quoted string reads as. It needs two characters at least, has to begin with a
/// quote character and to end with the same one; what stands between them is unescaped.
pub open spec fn unquoted(s: Seq<char>) -> Result<Seq<char>, QuoteError> {
    if s.len() < 2 {
        Err(QuoteError::NotEnoughChars)
    } else if !is_quote(s[0]) {
        Err(QuoteError::UnrecognizedQuote)
    } else if s.last() != s[0] {
        Err(QuoteError::UnexpectedEOF)
    } else {
        unescaped(s.subrange(1, s.len() - 1), s[0])
    }
}

/// The model of what the unquoting returns.
pub open spec fn quote_result(r: Result<String, QuoteError>) -> Result<Seq<char>, QuoteError> {
    match r {
        Ok(text) => Ok(text@),
        Err(kind) => Err(kind),
    }
}

/// Whether the unquoting failed for the reason `kind`.
pub open spec fn failed_with(r: Result<String, QuoteError>, kind: QuoteError) -> bool {
    r matches Err(k) && k == kind
}

/// What [`unquote`] returns for `s`.
pub open spec fn unquote_result(s: Seq<char>) -> Result<Seq<char>, ErrorView> {
    match unquoted(s) {
        Ok(text) => Ok(text),
        Err(kind) => Err(ErrorView::Enquote(kind)),
    }
}

/// Calls `enquote::enquote`, which walks over the characters of `s`, writes a backslash
/// and the quote for each quote character, two backslashes for each backslash and every
/// other character as it is, and puts the quote character before and after the whole.
#[verifier::external_body]
fn enquote_with(quote: char, s: &str) -> (r: String)
    ensures
        r@ == enquoted(quote, s@),
{
    ::enquote::enquote(quote, s)
}

/// Calls `enquote::unquote`, which rejects a string of fewer than two characters, then one
/// that does not begin with a quote character, then one that does not end with the same
/// character, and hands what stands between the two to `enquote::unescape` with the quote
/// as the character that may not stand there bare. That walks over the text once: it
/// fails on a bare quote, copies every character other than the backslash, and copies the
/// character after a backslash where that is a backslash or a quote character. What it
/// makes of the other escape sequences is taken to depend on the text from there on and
/// the quote alone and is not stated here.
#[verifier::external_body]
fn unquote_with(s: &str) -> (r: Result<String, QuoteError>)
    ensures
        s@.len() < 2 ==> failed_with(r, QuoteError::NotEnoughChars),
        s@.len() >= 2 && !is_quote(s@[0]) ==> failed_with(r, QuoteError::UnrecognizedQuote),
        s@.len() >= 2 && is_quote(s@[0]) && s@.last() != s@[0] ==> failed_with(
            r,
            QuoteError::UnexpectedEOF,
        ),
        s@.len() >= 2 && is_quote(s@[0]) && s@.last() == s@[0] ==> quote_result(r)
            == unescaped(s@.subrange(1, s@.len() - 1), s@[0]),
        s@.len() >= 2 && is_quote(s@[0]) && s@.last() == s@[0] && begins_with_other_escape(
            s@.subrange(1, s@.len() - 1),
        ) ==> quote_result(r) == unescape_value(s@.subrange(1, s@.len() - 1), s@[0]),
{
    match ::enquote::unquote(s) {
        Ok(text) => Ok(text),
        Err(::enquote::Error::NotEnoughChars) => Err(QuoteError::NotEnoughChars),
        Err(::enquote::Error::UnrecognizedQuote) => Err(QuoteError::UnrecognizedQuote),
        Err(::enquote::Error::UnexpectedEOF) => Err(QuoteError::UnexpectedEOF),
        Err(::enquote::Error::IllegalChar) => Err(QuoteError::IllegalChar),
        Err(::enquote::Error::UnrecognizedEscape) => Err(QuoteError::UnrecognizedEscape),
        Err(::enquote::Error::InvalidUnicode) => Err(QuoteError::InvalidUnicode),
    }
}

/// Where the characters of `chars` from `from` up to `to` begin once a leading `file://`
/// is left out.
pub(crate) fn stripped_start(chars: &Vec<char>, from: usize, to: usize) -> (start: usize)
    requires
        from <= to <= chars.len(),
    ensures
        from <= start <= to,
        chars@.subrange(start as int, to as int) == stripped(
            chars@.subrange(from as int, to as int),
        ),
{
    let scheme = chars_of(FILE_SCHEME);
    if starts_with_at(chars, from, to, &scheme) {
        let ghost part = chars@.subrange(from as int, to as int);
        assert(part.subrange(scheme.len() as int, part.len() as int) =~= chars@.subrange(
            from + scheme.len(),
            to as int,
        ));
        from + scheme.len()
    } else {
        from
    }
}

/// Removes a leading `file://` from `s`, and returns `s` unchanged where it has none.
pub fn strip_file_uri(s: &str) -> (r: String)
    ensures
        r@ == stripped(s@),
{
    let chars = chars_of(s);
    let n: usize = chars.len();
    assert(chars@.subrange(0, n as int) =~= chars@);
    let start = stripped_start(&chars, 0, n);
    slice_of(s, start, n)
}

/// Puts `s` between double quotes, escaped so that [`unquote`] can read it back.
pub fn quote(s: &str) -> (r: String)
    ensures
        r@ == enquoted(QUOTE, s@),
{
    enquote_with(QUOTE, s)
}

/// The stored value that stands for the file at `path`: its `file://` URI in double quotes.
pub fn quote_uri(path: &str) -> (r: String)
    ensures
        r@ == quoted_uri(path@),
{
    let uri = FILE_SCHEME.to_owned().concat(path);
    quote(uri.as_str())
}

/// Reads a quoted string back. Fails with `Error::Enquote` where `s` is not one.
pub fn unquote(s: &str) -> (r: Result<String, Error>)
    ensures
        text_result(r) == unquote_result(s@),
{
    match unquote_with(s) {
        Ok(text) => Ok(text),
        Err(kind) => Err(Error::Enquote(kind)),
    }
}

/// Stripping a path that was made a URI gives the path back.
pub proof fn lemma_strip_of_uri(path: Seq<char>)
    ensures
        stripped(FILE_SCHEME@ + path) == path,
{
    let uri = FILE_SCHEME@ + path;
    assert(uri.subrange(0, FILE_SCHEME@.len() as int) =~= FILE_SCHEME@);
    assert(uri.subrange(FILE_SCHEME@.len() as int, uri.len() as int) =~= path);
}

/// A path that begins with a slash has no scheme to remove.
pub proof fn lemma_stripped_of_absolute(path: Seq<char>)
    requires
        path.len() > 0,
        path[0] == '/',
    ensures
        stripped(path) == path,
{
    reveal_strlit("file://");
    if FILE_SCHEME@.is_prefix_of(path) {
        assert(path.subrange(0, FILE_SCHEME@.len() as int)[0] == FILE_SCHEME@[0]);
    }
}

/// A quoted string begins and ends with the quote character, and is at least two
/// characters long.
pub proof fn lemma_enquoted_shape(quote: char, s: Seq<char>)
    ensures
        enquoted(quote, s).len() == escaped(quote, s).len() + 2,
        enquoted(quote, s).first() == quote,
        enquoted(quote, s).last() == quote,
{
}

/// No quote character is the backslash.
proof fn lemma_quote_is_no_backslash(quote: char)
    requires
        is_quote(quote),
    ensures
        quote != '\\',
{
}

/// Escaping and unescaping give the text back.
pub proof fn lemma_unescape_of_escaped(quote: char, s: Seq<char>)
    requires
        is_quote(quote),
    ensures
        unescaped(escaped(quote, s), quote) == Ok::<Seq<char>, QuoteError>(s),
    decreases s.len(),
{
    lemma_quote_is_no_backslash(quote);
    if s.len() == 0 {
        assert(s =~= Seq::<char>::empty());
    } else {
        let c = s[0];
        let rest = s.skip(1);
        let tail = escaped(quote, rest);
        let all = escaped(quote, s);
        lemma_unescape_of_escaped(quote, rest);
        assert(s =~= seq![c] + rest);
        if c == quote || c == '\\' {
            assert(all == seq!['\\', c] + tail);
            assert(all[0] == '\\' && all[1] == c);
            assert(all.skip(2) =~= tail);
        } else {
            assert(all == seq![c] + tail);
            assert(all[0] == c);
            assert(all.skip(1) =~= tail);
        }
    }
}

/// What was quoted reads back as it was, whatever the text.
pub proof fn lemma_unquote_of_enquoted(quote: char, s: Seq<char>)
    requires
        is_quote(quote),
    ensures
        unquoted(enquoted(quote, s)) == Ok::<Seq<char>, QuoteError>(s),
{
    let whole = enquoted(quote, s);
    lemma_unescape_of_escaped(quote, s);
    assert(whole.len() == escaped(quote, s).len() + 2);
    assert(whole[0] == quote);
    assert(whole.last() == quote);
    assert(whole.subrange(1, whole.len() - 1) =~= escaped(quote, s));
}

} // verus!
