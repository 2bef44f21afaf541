//! The ways in which a run can fail, the text each is reported with, and the
//! exit status it ends the process with.

use vstd::prelude::*;
use vstd::string::*;

verus! {

/// Why a run did not install anything.
#[derive(Debug, Clone, PartialEq, Eq)]
pub enum Error {
    /// Connection failure, timeout or a non-success HTTP status.
    HttpRequest(String),
    /// A body that is not the expected document, or an archive that does not decode.
    Decode(String),
    /// The release index lists no build under the key that is carried.
    UnsupportedTarget(String),
    /// A failure of the local file system.
    Io(String),
    /// The server did not say how long the artifact is.
    MissingContentLength,
    /// The user declined a prompt or interrupted the input.
    UserCancelled,
}

/// An [`Error`] with its texts as sequences of characters.
pub ghost enum ErrorView {
    HttpRequest(Seq<char>),
    Decode(Seq<char>),
    UnsupportedTarget(Seq<char>),
    Io(Seq<char>),
    MissingContentLength,
    UserCancelled,
}

impl View for Error {
    type V = ErrorView;

    open spec fn view(&self) -> ErrorView {
        match self {
            Error::HttpRequest(detail) => ErrorView::HttpRequest(detail@),
            Error::Decode(detail) => ErrorView::Decode(detail@),
            Error::UnsupportedTarget(key) => ErrorView::UnsupportedTarget(key@),
            Error::Io(detail) => ErrorView::Io(detail@),
            Error::MissingContentLength => ErrorView::MissingContentLength,
            Error::UserCancelled => ErrorView::UserCancelled,
        }
    }
}

impl ErrorView {
    /// The line shown to the user: a fixed prefix per kind, then the detail.
    pub open spec fn message(self) -> Seq<char> {
        match self {
            ErrorView::HttpRequest(detail) => "HTTP error: "@ + detail,
            ErrorView::Decode(detail) => "Decode error: "@ + detail,
            ErrorView::UnsupportedTarget(key) => "Unsupported target: "@ + key,
            ErrorView::Io(detail) => "IO error: "@ + detail,
            ErrorView::MissingContentLength => "Missing content length!"@,
            ErrorView::UserCancelled => "Cancelled"@,
        }
    }

    /// A cancellation ends the process cleanly, every other failure with 1.
    pub open spec fn exit_status(self) -> int {
        if self is UserCancelled {
            0
        } else {
            1
        }
    }
}

impl Error {
    /// The error for a failed HTTP exchange: a body that arrived but is not
    /// the expected document is a decode error, anything else a network error.
    pub fn from_transfer(undecodable: bool, detail: &str) -> (error: Error)
        ensures
            error@ == if undecodable {
                ErrorView::Decode(detail@)
            } else {
                ErrorView::HttpRequest(detail@)
            },
    {
        if undecodable {
            Error::Decode(String::from_str(detail))
        } else {
            Error::HttpRequest(String::from_str(detail))
        }
    }

    /// The error for a failed file operation: data that is not a valid
    /// archive is a decode error, anything else an I/O error.
    pub fn from_file_system(invalid_data: bool, detail: &str) -> (error: Error)
        ensures
            error@ == if invalid_data {
                ErrorView::Decode(detail@)
            } else {
                ErrorView::Io(detail@)
            },
    {
        if invalid_data {
            Error::Decode(String::from_str(detail))
        } else {
            Error::Io(String::from_str(detail))
        }
    }

    /// The line shown to the user for this failure.
    pub fn message(&self) -> (text: String)
        ensures
            text@ == self@.message(),
    {
        match self {
            Error::HttpRequest(detail) => String::from_str("HTTP error: ").concat(detail.as_str()),
            Error::Decode(detail) => String::from_str("Decode error: ").concat(detail.as_str()),
            Error::UnsupportedTarget(key) => String::from_str("Unsupported target: ").concat(
                key.as_str(),
            ),
            Error::Io(detail) => String::from_str("IO error: ").concat(detail.as_str()),
            Error::MissingContentLength => String::from_str("Missing content length!"),
            Error::UserCancelled => String::from_str("Cancelled"),
        }
    }

    /// The status the process exits with after this failure.
    pub fn exit_status(&self) -> (status: i32)
        ensures
            status == self@.exit_status(),
            status == 0 <==> self@ is UserCancelled,
    {
        match self {
            Error::UserCancelled => 0,
            _ => 1,
        }
    }

    /// A copy with the same kind and the same texts.
    pub fn duplicate(&self) -> (copy: Error)
        ensures
            copy@ == self@,
    {
        match self {
            Error::HttpRequest(detail) => Error::HttpRequest(detail.clone()),
            Error::Decode(detail) => Error::Decode(detail.clone()),
            Error::UnsupportedTarget(key) => Error::UnsupportedTarget(key.clone()),
            Error::Io(detail) => Error::Io(detail.clone()),
            Error::MissingContentLength => Error::MissingContentLength,
            Error::UserCancelled => Error::UserCancelled,
        }
    }
}

} // verus!
