//! The ways in which an operation of this library fails.

use vstd::prelude::*;
use vstd::string::*;

verus! {

/// Why an operation failed.
///
/// Failures of the transport itself (a refused connection, a failed
/// handshake, a read or write that did not complete) are not among these:
/// the library performs no input or output, so they arise in its caller.
#[derive(Debug, Clone, PartialEq, Eq)]
pub enum Error {
    /// A line received from the server is not valid UTF-8.
    Utf8,
    /// A status line is neither `+OK <text>` nor `-ERR <text>`.
    Unparseable,
    /// A line of a reply does not match the grammar of its command.
    Malformed,
    /// A message number or a unique-id occurs twice in one listing.
    Duplicate,
    /// The server answered `-ERR`; the text that followed is the detail.
    Server(String),
    /// The operation is not allowed in the state the connection is in.
    Precondition,
    /// The account names an authentication mode that does not exist.
    Config,
}

/// The mathematical value of an [`Error`].
pub enum ErrorView {
    Utf8,
    Unparseable,
    Malformed,
    Duplicate,
    Server(Seq<char>),
    Precondition,
    Config,
}

impl View for Error {
    type V = ErrorView;

    open spec fn view(&self) -> ErrorView {
        match *self {
            Error::Utf8 => ErrorView::Utf8,
            Error::Unparseable => ErrorView::Unparseable,
            Error::Malformed => ErrorView::Malformed,
            Error::Duplicate => ErrorView::Duplicate,
            Error::Server(detail) => ErrorView::Server(detail@),
            Error::Precondition => ErrorView::Precondition,
            Error::Config => ErrorView::Config,
        }
    }
}

/// The sentence that describes an error, before the server's detail if any.
pub open spec fn headline(e: ErrorView) -> Seq<char> {
    match e {
        ErrorView::Utf8 => "the server sent a line that is not valid UTF-8"@,
        ErrorView::Unparseable => "un-parseable response"@,
        ErrorView::Malformed => "the reply does not match the grammar of its command"@,
        ErrorView::Duplicate => "a message number or unique-id occurs twice in the listing"@,
        ErrorView::Server(_) => "the server refused the command: "@,
        ErrorView::Precondition => "the operation is not allowed in this state"@,
        ErrorView::Config => "unknown auth type"@,
    }
}

/// What `message` returns: the headline, followed by the server's detail
/// where there is one.
pub open spec fn message_of(e: ErrorView) -> Seq<char> {
    match e {
        ErrorView::Server(detail) => headline(e) + detail,
        _ => headline(e),
    }
}

impl Error {
    /// A description of the error for a human reader.
    pub fn message(&self) -> (r: String)
        ensures
            r@ == message_of(self@),
    {
        match self {
            Error::Utf8 => String::from_str("the server sent a line that is not valid UTF-8"),
            Error::Unparseable => String::from_str("un-parseable response"),
            Error::Malformed => String::from_str(
                "the reply does not match the grammar of its command",
            ),
            Error::Duplicate => String::from_str(
                "a message number or unique-id occurs twice in the listing",
            ),
            Error::Server(detail) => {
                let mut r = String::from_str("the server refused the command: ");
                r.append(detail.as_str());
                r
            },
            Error::Precondition => String::from_str("the operation is not allowed in this state"),
            Error::Config => String::from_str("unknown auth type"),
        }
    }
}

} // verus!
