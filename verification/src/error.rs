//! The ways in which a relay operation fails.
use vstd::prelude::*;

verus! {

/// Why an operation of the relay failed.
#[derive(Debug)]
pub enum Error {
    /// The content digest of a body could not be computed.
    Digest,
    /// A JSON document did not have the expected shape.
    Json,
    /// A signature could not be computed or parsed.
    Signature,
    /// A signature was well formed but did not verify.
    SignatureFail,
    /// An HTTP request could not be built.
    HttpReq,
    /// An HTTP request could not be carried out.
    Http,
    /// The store reported a failure.
    Database,
    /// A URI could not be parsed or lacks a part that is needed.
    InvalidUri,
    /// A remote answered with a status outside the 2xx range; the body it sent.
    Response(String),
    /// A remote API answered in a way that cannot be used; what went wrong.
    Api(String),
}

/// The mathematical value of an [`Error`].
pub enum ErrorView {
    Digest,
    Json,
    Signature,
    SignatureFail,
    HttpReq,
    Http,
    Database,
    InvalidUri,
    Response(Seq<char>),
    Api(Seq<char>),
}

impl View for Error {
    type V = ErrorView;

    open spec fn view(&self) -> ErrorView {
        match self {
            Error::Digest => ErrorView::Digest,
            Error::Json => ErrorView::Json,
            Error::Signature => ErrorView::Signature,
            Error::SignatureFail => ErrorView::SignatureFail,
            Error::HttpReq => ErrorView::HttpReq,
            Error::Http => ErrorView::Http,
            Error::Database => ErrorView::Database,
            Error::InvalidUri => ErrorView::InvalidUri,
            Error::Response(body) => ErrorView::Response(body@),
            Error::Api(message) => ErrorView::Api(message@),
        }
    }
}

/// The text `s` in double quotes with its special characters escaped, as the
/// standard library's `Debug` formatting of a string writes it.
pub uninterp spec fn debug_quoted(s: Seq<char>) -> Seq<char>;

/// Formats `s` with the `Debug` formatting of `str`. Trusted: the result is
/// the value that [`debug_quoted`] names for these characters.
#[verifier::external_body]
pub(crate) fn quote(s: &str) -> (quoted: String)
    ensures
        quoted@ == debug_quoted(s@),
{
    format!("{:?}", s)
}

/// The text that describes an error.
pub open spec fn message_text(e: ErrorView) -> Seq<char> {
    match e {
        ErrorView::Digest => "HTTP Digest generation error"@,
        ErrorView::Json => "JSON encoding error"@,
        ErrorView::Signature => "Signature error"@,
        ErrorView::SignatureFail => "Signature verification failure"@,
        ErrorView::HttpReq => "HTTP request error"@,
        ErrorView::Http => "HTTP client error"@,
        ErrorView::Database => "Database error"@,
        ErrorView::InvalidUri => "Invalid URI"@,
        ErrorView::Response(body) => "Error response from remote: "@ + debug_quoted(body),
        ErrorView::Api(message) => "Api error: "@ + debug_quoted(message),
    }
}

impl Error {
    /// A one-line description of the error.
    pub fn message(&self) -> (text: String)
        ensures
            text@ == message_text(self@),
    {
        match self {
            Error::Digest => String::from_str("HTTP Digest generation error"),
            Error::Json => String::from_str("JSON encoding error"),
            Error::Signature => String::from_str("Signature error"),
            Error::SignatureFail => String::from_str("Signature verification failure"),
            Error::HttpReq => String::from_str("HTTP request error"),
            Error::Http => String::from_str("HTTP client error"),
            Error::Database => String::from_str("Database error"),
            Error::InvalidUri => String::from_str("Invalid URI"),
            Error::Response(body) => {
                let quoted = quote(body.as_str());
                crate::text::join2("Error response from remote: ", quoted.as_str())
            },
            Error::Api(message) => {
                let quoted = quote(message.as_str());
                crate::text::join2("Api error: ", quoted.as_str())
            },
        }
    }
}

impl Clone for Error {
    fn clone(&self) -> (copy: Self)
        ensures
            copy == *self,
    {
        match self {
            Error::Digest => Error::Digest,
            Error::Json => Error::Json,
            Error::Signature => Error::Signature,
            Error::SignatureFail => Error::SignatureFail,
            Error::HttpReq => Error::HttpReq,
            Error::Http => Error::Http,
            Error::Database => Error::Database,
            Error::InvalidUri => Error::InvalidUri,
            Error::Response(body) => Error::Response(body.clone()),
            Error::Api(message) => Error::Api(message.clone()),
        }
    }
}

} // verus!
