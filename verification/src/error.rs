//! The failures an operation can end in, and the envelope the service sends
//! with a failed reply.

use vstd::prelude::*;
use vstd::string::StringExecFns;

verus! {

/// `url::ParseError`, the reason for which the `url` crate rejects a string.
/// It is carried as it is; nothing is claimed of what it holds.
#[verifier::external_type_specification]
#[verifier::external_body]
pub struct ExParseError(::url::ParseError);

/// Error envelope sent by the service with a reply that reports a failure.
/// The code is whatever integer the service sent.
#[derive(Debug, Clone)]
pub struct ErrorResponse {
    pub code: i64,
    pub message: String,
    pub data: String,
}

/// The ways in which an operation can fail.
#[derive(Debug)]
pub enum Error {
    /// The HTTP exchange failed before a reply was read; holds the transport's account of it.
    HttpError(String),
    /// The target URL is not an absolute `http` or `https` URL.
    InvalidUrl(String),
    /// A string that had to be a URL did not parse as one.
    UrlParseError(::url::ParseError),
    /// The service answered with a failure status.
    ServerError { status: u16, message: String },
    /// The body of a successful reply did not have the expected shape; holds the decoder's account of it.
    JsonError(String),
    /// The service answered 404.
    NotFound,
    /// The service answered 429.
    RateLimited,
    /// A local file could not be read; holds the system's account of it.
    IoError(String),
    /// Any other failure, by its message.
    GenericError(String),
}

/// An envelope as contracts see it.
pub struct ErrorResponseView {
    pub code: i64,
    pub message: Seq<char>,
    pub data: Seq<char>,
}

impl View for ErrorResponse {
    type V = ErrorResponseView;

    open spec fn view(&self) -> ErrorResponseView {
        ErrorResponseView { code: self.code, message: self.message@, data: self.data@ }
    }
}

/// A failure as contracts see it: the same kinds, with each text as a sequence
/// of characters.
pub enum ErrorView {
    HttpError(Seq<char>),
    InvalidUrl(Seq<char>),
    UrlParseError(::url::ParseError),
    ServerError { status: u16, message: Seq<char> },
    JsonError(Seq<char>),
    NotFound,
    RateLimited,
    IoError(Seq<char>),
    GenericError(Seq<char>),
}

impl View for Error {
    type V = ErrorView;

    open spec fn view(&self) -> ErrorView {
        match *self {
            Error::HttpError(text) => ErrorView::HttpError(text@),
            Error::InvalidUrl(url) => ErrorView::InvalidUrl(url@),
            Error::UrlParseError(cause) => ErrorView::UrlParseError(cause),
            Error::ServerError { status, message } => ErrorView::ServerError {
                status,
                message: message@,
            },
            Error::JsonError(text) => ErrorView::JsonError(text@),
            Error::NotFound => ErrorView::NotFound,
            Error::RateLimited => ErrorView::RateLimited,
            Error::IoError(text) => ErrorView::IoError(text@),
            Error::GenericError(text) => ErrorView::GenericError(text@),
        }
    }
}

impl From<::url::ParseError> for Error {
    /// A URL that did not parse is reported as `UrlParseError`, with its cause.
    fn from(cause: ::url::ParseError) -> (r: Error) {
        Error::UrlParseError(cause)
    }
}

impl vstd::std_specs::convert::FromSpecImpl<::url::ParseError> for Error {
    open spec fn obeys_from_spec() -> bool {
        true
    }

    open spec fn from_spec(cause: ::url::ParseError) -> Error {
        Error::UrlParseError(cause)
    }
}

/// The decimal digit that stands for `d`, for `d` below ten.
pub open spec fn digit(d: nat) -> char {
    if d == 0 {
        '0'
    } else if d == 1 {
        '1'
    } else if d == 2 {
        '2'
    } else if d == 3 {
        '3'
    } else if d == 4 {
        '4'
    } else if d == 5 {
        '5'
    } else if d == 6 {
        '6'
    } else if d == 7 {
        '7'
    } else if d == 8 {
        '8'
    } else {
        '9'
    }
}

/// `n` written in base ten, without leading zeros.
pub open spec fn decimal(n: nat) -> Seq<char>
    decreases n,
{
    if n < 10 {
        seq![digit(n)]
    } else {
        decimal(n / 10).push(digit(n % 10))
    }
}

/// What a failure says of itself: a fixed opening for its kind, then the
/// text it holds. `words` is what the parser says of its error; it counts for
/// `UrlParseError` alone.
pub open spec fn message_view(e: ErrorView, words: Seq<char>) -> Seq<char> {
    match e {
        ErrorView::HttpError(text) => "HTTP request failed: "@ + text,
        ErrorView::InvalidUrl(url) => "Invalid URL format: "@ + url,
        ErrorView::UrlParseError(_) => "URL parsing error: "@ + words,
        ErrorView::ServerError { status, message } => "Server error: "@ + decimal(status as nat)
            + " - "@ + message,
        ErrorView::JsonError(text) => "JSON parsing error: "@ + text,
        ErrorView::NotFound => "URL not found"@,
        ErrorView::RateLimited => "Rate limit exceeded"@,
        ErrorView::IoError(text) => "IO error: "@ + text,
        ErrorView::GenericError(text) => "Error: "@ + text,
    }
}

fn digit_text(d: u16) -> (s: &'static str)
    requires
        d < 10,
    ensures
        s@ == seq![digit(d as nat)],
{
    proof {
        reveal_strlit("0");
        reveal_strlit("1");
        reveal_strlit("2");
        reveal_strlit("3");
        reveal_strlit("4");
        reveal_strlit("5");
        reveal_strlit("6");
        reveal_strlit("7");
        reveal_strlit("8");
        reveal_strlit("9");
    }
    let s = if d == 0 {
        "0"
    } else if d == 1 {
        "1"
    } else if d == 2 {
        "2"
    } else if d == 3 {
        "3"
    } else if d == 4 {
        "4"
    } else if d == 5 {
        "5"
    } else if d == 6 {
        "6"
    } else if d == 7 {
        "7"
    } else if d == 8 {
        "8"
    } else {
        "9"
    };
    assert(s@ =~= seq![digit(d as nat)]);
    s
}

/// Writes `n` in base ten.
pub fn decimal_text(n: u16) -> (text: String)
    ensures
        text@ == decimal(n as nat),
    decreases n,
{
    if n < 10 {
        String::from_str(digit_text(n))
    } else {
        let last = digit_text(n % 10);
        let text = decimal_text(n / 10).concat(last);
        assert(text@ =~= decimal(n as nat / 10).push(digit(n as nat % 10)));
        text
    }
}

impl Error {
    /// What the failure says of itself: a fixed opening for its kind, then
    /// the text it holds. A `ServerError` gives the status in base ten, ` - `
    /// and the message; a `UrlParseError` ends in what the parser's error
    /// writes of itself.
    pub fn message(&self) -> (text: String)
        ensures
            match *self {
                Error::UrlParseError(cause) => exists|words: String|
                    #[trigger] vstd::string::to_string_from_display_ensures::<::url::ParseError>(
                        &cause,
                        words,
                    ) && text@ == message_view(self@, words@),
                _ => text@ == message_view(self@, Seq::<char>::empty()),
            },
    {
        match self {
            Error::HttpError(account) => String::from_str("HTTP request failed: ").concat(
                account.as_str(),
            ),
            Error::InvalidUrl(url) => String::from_str("Invalid URL format: ").concat(url.as_str()),
            Error::UrlParseError(cause) => {
                let words = cause.to_string();
                String::from_str("URL parsing error: ").concat(words.as_str())
            },
            Error::ServerError { status, message } => String::from_str("Server error: ").concat(
                decimal_text(*status).as_str(),
            ).concat(" - ").concat(message.as_str()),
            Error::JsonError(account) => String::from_str("JSON parsing error: ").concat(
                account.as_str(),
            ),
            Error::NotFound => String::from_str("URL not found"),
            Error::RateLimited => String::from_str("Rate limit exceeded"),
            Error::IoError(account) => String::from_str("IO error: ").concat(account.as_str()),
            Error::GenericError(text) => String::from_str("Error: ").concat(text.as_str()),
        }
    }
}

/// Result of an operation of this crate.
pub type Result<T> = std::result::Result<T, Error>;

} // verus!
