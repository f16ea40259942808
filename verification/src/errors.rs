//! The error kinds that fetching and reading a post can end in.

use vstd::prelude::*;
use vstd::std_specs::convert::FromSpecImpl;
use vstd::string::StringExecFns;

verus! {

/// Why a post could not be fetched or read.
#[derive(Debug)]
pub enum DownloaderError {
    /// The request could not be sent: the network itself failed.
    ConnectionFailed(String),
    /// The request was sent, but what came back was not a usable answer.
    RequestFailed(String),
    /// What the site sent could not be read, or a field was not found in it.
    ParseError(String),
    /// No adapter serves the host of the URL.
    Unsupported,
    /// No value could be had, and nothing more is known.
    Other,
}

/// A result whose error is a [`DownloaderError`].
pub type DownloaderResult<T> = Result<T, DownloaderError>;

/// What a transport error says of itself: one flag for each question it answers, and its
/// text.
pub struct TransportFault {
    /// The request could not be built.
    pub builder: bool,
    /// No connection could be made.
    pub connect: bool,
    /// A redirect could not be followed.
    pub redirect: bool,
    /// The body of the request or of the answer failed.
    pub body: bool,
    /// The answer's body could not be decoded.
    pub decode: bool,
    /// The request could not be sent.
    pub request: bool,
    /// The answer carried a status that counts as failure.
    pub status: bool,
    /// The request ran out of time.
    pub timeout: bool,
    /// The error's own words.
    pub text: String,
}

/// The mathematical value of a [`DownloaderError`].
pub enum ErrorView {
    ConnectionFailed(Seq<char>),
    RequestFailed(Seq<char>),
    ParseError(Seq<char>),
    Unsupported,
    Other,
}

impl View for DownloaderError {
    type V = ErrorView;

    open spec fn view(&self) -> ErrorView {
        match self {
            DownloaderError::ConnectionFailed(m) => ErrorView::ConnectionFailed(m@),
            DownloaderError::RequestFailed(m) => ErrorView::RequestFailed(m@),
            DownloaderError::ParseError(m) => ErrorView::ParseError(m@),
            DownloaderError::Unsupported => ErrorView::Unsupported,
            DownloaderError::Other => ErrorView::Other,
        }
    }
}

impl ErrorView {
    /// The words shown to the user for this error.
    pub open spec fn text(self) -> Seq<char> {
        match self {
            ErrorView::ConnectionFailed(m) => m,
            ErrorView::RequestFailed(m) => m,
            ErrorView::ParseError(m) => m,
            ErrorView::Unsupported => "Not supported"@,
            ErrorView::Other => "Could not retrieve any value"@,
        }
    }

    /// True for the one kind that is reported as "not supported" rather than as a failure.
    pub open spec fn is_unsupported(self) -> bool {
        self is Unsupported
    }
}

impl TransportFault {
    /// The error kind that a transport error stands for. The first group that claims the
    /// error decides: connection, then parsing, then request.
    pub open spec fn kind(self) -> ErrorView {
        if self.builder || self.connect || self.redirect {
            ErrorView::ConnectionFailed(self.text@)
        } else if self.body || self.decode {
            ErrorView::ParseError(self.text@)
        } else if self.request || self.status || self.timeout {
            ErrorView::RequestFailed(self.text@)
        } else {
            ErrorView::Other
        }
    }
}

impl DownloaderError {
    /// The words shown to the user for this error.
    pub fn message(&self) -> (r: String)
        ensures
            r@ == self@.text(),
    {
        match self {
            DownloaderError::ConnectionFailed(m) => m.clone(),
            DownloaderError::RequestFailed(m) => m.clone(),
            DownloaderError::ParseError(m) => m.clone(),
            DownloaderError::Unsupported => String::from_str("Not supported"),
            DownloaderError::Other => String::from_str("Could not retrieve any value"),
        }
    }

    /// True when the host has no adapter: the one error that is not reported as a failure.
    pub fn is_unsupported(&self) -> (r: bool)
        ensures
            r == self@.is_unsupported(),
    {
        match self {
            DownloaderError::Unsupported => true,
            _ => false,
        }
    }

    /// The error for text that could not be read.
    pub fn parse(text: &str) -> (r: DownloaderError)
        ensures
            r@ == ErrorView::ParseError(text@),
    {
        DownloaderError::ParseError(String::from_str(text))
    }
}

impl From<TransportFault> for DownloaderError {
    fn from(value: TransportFault) -> (r: DownloaderError) {
        if value.builder || value.connect || value.redirect {
            DownloaderError::ConnectionFailed(value.text)
        } else if value.body || value.decode {
            DownloaderError::ParseError(value.text)
        } else if value.request || value.status || value.timeout {
            DownloaderError::RequestFailed(value.text)
        } else {
            DownloaderError::Other
        }
    }
}

impl FromSpecImpl<TransportFault> for DownloaderError {
    open spec fn obeys_from_spec() -> bool {
        true
    }

    open spec fn from_spec(value: TransportFault) -> DownloaderError {
        if value.builder || value.connect || value.redirect {
            DownloaderError::ConnectionFailed(value.text)
        } else if value.body || value.decode {
            DownloaderError::ParseError(value.text)
        } else if value.request || value.status || value.timeout {
            DownloaderError::RequestFailed(value.text)
        } else {
            DownloaderError::Other
        }
    }
}

/// Sorts a transport error into the library's error kinds.
pub fn classify(fault: TransportFault) -> (r: DownloaderError)
    ensures
        r@ == fault.kind(),
{
    DownloaderError::from(fault)
}

} // verus!
