//! The failures that an operation can end in.

use vstd::prelude::*;
use vstd::std_specs::convert::FromSpecImpl;

verus! {

/// Why a quoted string could not be read back.
#[derive(Clone, Copy, Debug, PartialEq, Eq, Structural)]
pub enum QuoteError {
    NotEnoughChars,
    UnrecognizedQuote,
    UnexpectedEOF,
    IllegalChar,
    UnrecognizedEscape,
    InvalidUnicode,
}

/// Where and why a configuration file is not valid INI.
#[derive(Debug, PartialEq, Eq)]
pub struct IniFault {
    pub line: usize,
    pub col: usize,
    pub message: String,
}

/// The model of an [`IniFault`].
pub struct IniFaultView {
    pub line: nat,
    pub col: nat,
    pub message: Seq<char>,
}

impl View for IniFault {
    type V = IniFaultView;

    open spec fn view(&self) -> IniFaultView {
        IniFaultView { line: self.line as nat, col: self.col as nat, message: self.message@ }
    }
}

#[derive(Debug, PartialEq, Eq)]
#[non_exhaustive]
pub enum Error {
    /// The host could not read a file or start a process; the text says why.
    IOError(String),
    /// A command wrote these bytes, or a configuration file holds them, and they are not
    /// UTF-8.
    InvalidUtf8(Vec<u8>),
    /// A configuration file is not valid INI.
    InvalidIni(IniFault),
    /// A stored value is not a well-formed quoted string.
    Enquote(QuoteError),
    /// A command ended, but not with status zero. `code` is -1 where it left no status.
    CommandFailed { command: String, code: i32 },
    /// The user has no configuration directory.
    NoConfigDir,
    /// The named desktop is supported, but no wallpaper is set on it.
    NoImage(&'static str),
    /// XFCE reports no desktop that could hold a wallpaper.
    XfceNoDesktops,
    /// The desktop is not one this library knows.
    UnsupportedDesktop,
    /// A path is not valid Unicode.
    InvalidPath,
    /// The system handed back a path that is not UTF-16.
    FromUtf16Error,
    /// A download failed; the text says why.
    Reqwest(String),
    /// Any other condition, in words.
    Other(String),
}

/// The model of an [`Error`]: the same cases over sequences of characters.
pub enum ErrorView {
    IOError(Seq<char>),
    InvalidUtf8(Seq<u8>),
    InvalidIni(IniFaultView),
    Enquote(QuoteError),
    CommandFailed { command: Seq<char>, code: i32 },
    NoConfigDir,
    NoImage(Seq<char>),
    XfceNoDesktops,
    UnsupportedDesktop,
    InvalidPath,
    FromUtf16Error,
    Reqwest(Seq<char>),
    Other(Seq<char>),
}

impl View for Error {
    type V = ErrorView;

    open spec fn view(&self) -> ErrorView {
        match self {
            Error::IOError(message) => ErrorView::IOError(message@),
            Error::InvalidUtf8(bytes) => ErrorView::InvalidUtf8(bytes@),
            Error::InvalidIni(fault) => ErrorView::InvalidIni(fault@),
            Error::Enquote(kind) => ErrorView::Enquote(*kind),
            Error::CommandFailed { command, code } => ErrorView::CommandFailed {
                command: command@,
                code: *code,
            },
            Error::NoConfigDir => ErrorView::NoConfigDir,
            Error::NoImage(desktop) => ErrorView::NoImage(desktop@),
            Error::XfceNoDesktops => ErrorView::XfceNoDesktops,
            Error::UnsupportedDesktop => ErrorView::UnsupportedDesktop,
            Error::InvalidPath => ErrorView::InvalidPath,
            Error::FromUtf16Error => ErrorView::FromUtf16Error,
            Error::Reqwest(message) => ErrorView::Reqwest(message@),
            Error::Other(message) => ErrorView::Other(message@),
        }
    }
}

/// The model of a result that carries a string.
pub open spec fn text_result(r: Result<String, Error>) -> Result<Seq<char>, ErrorView> {
    match r {
        Ok(s) => Ok(s@),
        Err(e) => Err(e@),
    }
}

/// The model of a result that carries nothing.
pub open spec fn unit_result(r: Result<(), Error>) -> Result<(), ErrorView> {
    match r {
        Ok(_) => Ok(()),
        Err(e) => Err(e@),
    }
}

impl From<String> for Error {
    fn from(s: String) -> (e: Error) {
        Error::Other(s)
    }
}

impl FromSpecImpl<String> for Error {
    open spec fn obeys_from_spec() -> bool {
        true
    }

    open spec fn from_spec(s: String) -> Error {
        Error::Other(s)
    }
}

impl<'a> From<&'a str> for Error {
    fn from(s: &'a str) -> (e: Error)
        ensures
            e@ == ErrorView::Other(s@),
    {
        Error::Other(s.to_owned())
    }
}

impl<'a> FromSpecImpl<&'a str> for Error {
    open spec fn obeys_from_spec() -> bool {
        false
    }

    open spec fn from_spec(s: &'a str) -> Error {
        Error::Other(arbitrary())
    }
}

impl<'a> From<&'a String> for Error {
    fn from(s: &'a String) -> (e: Error)
        ensures
            e@ == ErrorView::Other(s@),
    {
        Error::Other(s.clone())
    }
}

impl<'a> FromSpecImpl<&'a String> for Error {
    open spec fn obeys_from_spec() -> bool {
        true
    }

    open spec fn from_spec(s: &'a String) -> Error {
        Error::Other(*s)
    }
}

impl Error {
    /// The error that says `message` and nothing else.
    pub fn other(message: &str) -> (e: Error)
        ensures
            e@ == ErrorView::Other(message@),
    {
        Error::Other(message.to_owned())
    }
}

} // verus!
