//! Why a mount ends.
use vstd::prelude::*;
use vstd::string::*;
use vstd::utf8::*;

use crate::text;

verus! {

/// Why a mount ended. Paths are the bytes of the path, and what the operating
/// system or the HTTP client said of a failure is kept as text.
#[derive(Debug, PartialEq, Eq)]
pub enum Error {
    /// The given path already exists (any file type). Never overwritten.
    FifoAlreadyExists(Vec<u8>),
    /// The FIFO could not be made at a path that was free.
    FifoCreate(String),
    /// An I/O error during FIFO open or write.
    Io(String),
    /// The request failed, was answered with a status other than success, or
    /// broke off while streaming.
    Http(String),
    /// The operation was cancelled.
    Cancelled,
}

/// The mathematical value of an [`Error`].
pub enum ErrorView {
    FifoAlreadyExists(Seq<u8>),
    FifoCreate(Seq<char>),
    Io(Seq<char>),
    Http(Seq<char>),
    Cancelled,
}

impl View for Error {
    type V = ErrorView;

    open spec fn view(&self) -> ErrorView {
        match self {
            Error::FifoAlreadyExists(path) => ErrorView::FifoAlreadyExists(path@),
            Error::FifoCreate(detail) => ErrorView::FifoCreate(detail@),
            Error::Io(detail) => ErrorView::Io(detail@),
            Error::Http(detail) => ErrorView::Http(detail@),
            Error::Cancelled => ErrorView::Cancelled,
        }
    }
}

impl ErrorView {
    /// The sentence that describes the error.
    pub open spec fn message(self) -> Seq<char> {
        match self {
            ErrorView::FifoAlreadyExists(path) => "path already exists: "@ + text::lossy_utf8(path),
            ErrorView::FifoCreate(detail) => "failed to create FIFO: "@ + detail,
            ErrorView::Io(detail) => "I/O error: "@ + detail,
            ErrorView::Http(detail) => "HTTP error: "@ + detail,
            ErrorView::Cancelled => "cancelled"@,
        }
    }

    /// Whether the path in the error, if there is one, is UTF-8.
    pub open spec fn legible(self) -> bool {
        match self {
            ErrorView::FifoAlreadyExists(path) => valid_utf8(path),
            _ => true,
        }
    }

    /// The sentence that describes a legible error: its path is shown as it is.
    pub open spec fn legible_message(self) -> Seq<char> {
        match self {
            ErrorView::FifoAlreadyExists(path) => "path already exists: "@ + decode_utf8(path),
            _ => self.message(),
        }
    }
}

impl Error {
    /// The sentence that describes the error.
    pub fn message(&self) -> (r: String)
        ensures
            r@ == self@.message(),
            self@.legible() ==> r@ == self@.legible_message(),
            match self {
                Error::FifoAlreadyExists(path) => {
                    &&& r@ == "path already exists: "@ + text::lossy_utf8(path@)
                    &&& valid_utf8(path@) ==> r@ == "path already exists: "@ + decode_utf8(path@)
                },
                Error::FifoCreate(detail) => r@ == "failed to create FIFO: "@ + detail@,
                Error::Io(detail) => r@ == "I/O error: "@ + detail@,
                Error::Http(detail) => r@ == "HTTP error: "@ + detail@,
                Error::Cancelled => r@ == "cancelled"@,
            },
    {
        match self {
            Error::FifoAlreadyExists(path) => {
                let shown = text::lossy_text(path.as_slice());
                already_exists_message(shown.as_str())
            },
            Error::FifoCreate(detail) => "failed to create FIFO: ".to_owned().concat(
                detail.as_str(),
            ),
            Error::Io(detail) => "I/O error: ".to_owned().concat(detail.as_str()),
            Error::Http(detail) => "HTTP error: ".to_owned().concat(detail.as_str()),
            Error::Cancelled => "cancelled".to_owned(),
        }
    }
}

/// The sentence for an occupied path that is shown as `path`.
pub fn already_exists_message(path: &str) -> (r: String)
    ensures
        r@ == "path already exists: "@ + path@,
{
    "path already exists: ".to_owned().concat(path)
}

/// The mathematical value of the outcome of a mount.
pub open spec fn outcome(result: Result<(), Error>) -> Result<(), ErrorView> {
    match result {
        Ok(()) => Ok(()),
        Err(e) => Err(e@),
    }
}

/// The value of an outcome is a success or a failure as the outcome is, and that
/// of a failure is of the same kind and says the same.
pub proof fn law_outcome_is_kept(result: Result<(), Error>)
    ensures
        outcome(result) is Ok <==> result is Ok,
        result matches Err(e) ==> match e {
            Error::FifoAlreadyExists(path) => outcome(result)->Err_0
                == ErrorView::FifoAlreadyExists(path@),
            Error::FifoCreate(detail) => outcome(result)->Err_0 == ErrorView::FifoCreate(detail@),
            Error::Io(detail) => outcome(result)->Err_0 == ErrorView::Io(detail@),
            Error::Http(detail) => outcome(result)->Err_0 == ErrorView::Http(detail@),
            Error::Cancelled => outcome(result)->Err_0 == ErrorView::Cancelled,
        },
{
}

/// A message says what kind of error it is about and then, whole, what is known of
/// it: more to say makes it longer by just that.
pub proof fn law_message_says_all_there_is(path: Seq<u8>, detail: Seq<char>, more: Seq<char>)
    ensures
        ErrorView::FifoAlreadyExists(path).message() == "path already exists: "@
            + text::lossy_utf8(path),
        ErrorView::FifoCreate(detail).message() == "failed to create FIFO: "@ + detail,
        ErrorView::Io(detail).message() == "I/O error: "@ + detail,
        ErrorView::Http(detail).message() == "HTTP error: "@ + detail,
        ErrorView::Cancelled.message() == "cancelled"@,
        ErrorView::FifoCreate(detail + more).message() == ErrorView::FifoCreate(detail).message()
            + more,
        ErrorView::Io(detail + more).message() == ErrorView::Io(detail).message() + more,
        ErrorView::Http(detail + more).message() == ErrorView::Http(detail).message() + more,
{
    assert("failed to create FIFO: "@ + (detail + more) =~= "failed to create FIFO: "@ + detail
        + more);
    assert("I/O error: "@ + (detail + more) =~= "I/O error: "@ + detail + more);
    assert("HTTP error: "@ + (detail + more) =~= "HTTP error: "@ + detail + more);
}

} // verus!
