use vstd::prelude::*;

verus! {

/// The category of error returned by a JWT operation.
#[derive(Copy, Clone, Debug, PartialEq, Eq, Structural, Hash)]
pub enum ErrorKind {
    /// An authentication error
    Auth,
    Base64,
    Fetch,
    Format,
    Json,
    Time,
}

impl ErrorKind {
    /// The name of this kind, as it appears in the text of an [`Error`].
    pub open spec fn spec_name(self) -> Seq<char> {
        match self {
            ErrorKind::Auth => "Auth"@,
            ErrorKind::Base64 => "Base64"@,
            ErrorKind::Fetch => "Fetch"@,
            ErrorKind::Format => "Format"@,
            ErrorKind::Json => "Json"@,
            ErrorKind::Time => "Time"@,
        }
    }

    /// Return the name of this kind.
    pub fn name(self) -> (r: &'static str)
        ensures
            r@ == self.spec_name(),
    {
        match self {
            ErrorKind::Auth => "Auth",
            ErrorKind::Base64 => "Base64",
            ErrorKind::Fetch => "Fetch",
            ErrorKind::Format => "Format",
            ErrorKind::Json => "Json",
            ErrorKind::Time => "Time",
        }
    }
}

/// An error returned by a JWT operation: a kind and a message.
#[derive(Debug)]
pub enum Error {
    Auth(String),
    Base64(String),
    Fetch(String),
    Format(String),
    Json(String),
    Time(String),
}

impl View for Error {
    type V = (ErrorKind, Seq<char>);

    open spec fn view(&self) -> (ErrorKind, Seq<char>) {
        match self {
            Error::Auth(m) => (ErrorKind::Auth, m@),
            Error::Base64(m) => (ErrorKind::Base64, m@),
            Error::Fetch(m) => (ErrorKind::Fetch, m@),
            Error::Format(m) => (ErrorKind::Format, m@),
            Error::Json(m) => (ErrorKind::Json, m@),
            Error::Time(m) => (ErrorKind::Time, m@),
        }
    }
}

/// The text that `{:?}` gives for a string: the string quoted and escaped.
pub uninterp spec fn debug_text(s: Seq<char>) -> Seq<char>;

/// Render a string with `{:?}`.
///
/// Trusted: calls std's `Debug` impl of `str` through `format!`; the result is
/// claimed to be `debug_text` of the string, a function of the string alone.
#[verifier::external_body]
fn debug_format(s: &str) -> (r: String)
    ensures
        r@ == debug_text(s@),
{
    format!("{s:?}")
}

impl Error {
    /// Construct a new [`Error`].
    pub fn new(kind: ErrorKind, message: String) -> (r: Error)
        ensures
            r@ == (kind, message@),
    {
        match kind {
            ErrorKind::Auth => Error::Auth(message),
            ErrorKind::Base64 => Error::Base64(message),
            ErrorKind::Fetch => Error::Fetch(message),
            ErrorKind::Format => Error::Format(message),
            ErrorKind::Json => Error::Json(message),
            ErrorKind::Time => Error::Time(message),
        }
    }

    /// Return the [`ErrorKind`] of this [`Error`].
    pub fn kind(&self) -> (r: ErrorKind)
        ensures
            r == self@.0,
    {
        match self {
            Error::Auth(_) => ErrorKind::Auth,
            Error::Base64(_) => ErrorKind::Base64,
            Error::Fetch(_) => ErrorKind::Fetch,
            Error::Format(_) => ErrorKind::Format,
            Error::Json(_) => ErrorKind::Json,
            Error::Time(_) => ErrorKind::Time,
        }
    }

    /// Borrow the message of this [`Error`].
    pub fn message(&self) -> (r: &str)
        ensures
            r@ == self@.1,
    {
        match self {
            Error::Auth(m) => m.as_str(),
            Error::Base64(m) => m.as_str(),
            Error::Fetch(m) => m.as_str(),
            Error::Format(m) => m.as_str(),
            Error::Json(m) => m.as_str(),
            Error::Time(m) => m.as_str(),
        }
    }

    /// Destructure this [`Error`] into its [`ErrorKind`] and an error message [`String`].
    pub fn into_inner(self) -> (r: (ErrorKind, String))
        ensures
            r.0 == self@.0,
            r.1@ == self@.1,
    {
        match self {
            Error::Auth(m) => (ErrorKind::Auth, m),
            Error::Base64(m) => (ErrorKind::Base64, m),
            Error::Fetch(m) => (ErrorKind::Fetch, m),
            Error::Format(m) => (ErrorKind::Format, m),
            Error::Json(m) => (ErrorKind::Json, m),
            Error::Time(m) => (ErrorKind::Time, m),
        }
    }

    /// Construct a new authentication [`Error`].
    pub fn auth(message: &str) -> (r: Error)
        ensures
            r@ == (ErrorKind::Auth, message@),
    {
        Error::Auth(String::from_str(message))
    }

    /// Construct a new JWT format [`Error`].
    pub fn format(cause: &str) -> (r: Error)
        ensures
            r@ == (ErrorKind::Format, cause@),
    {
        Error::Format(String::from_str(cause))
    }

    /// Construct a new JWT actor retrieval [`Error`], whose message is `info` as `{:?}` shows it.
    pub fn fetch(info: &str) -> (r: Error)
        ensures
            r@ == (ErrorKind::Fetch, debug_text(info@)),
    {
        Error::Fetch(debug_format(info))
    }

    /// The text of this error: the name of its kind, `": "`, then its message.
    pub open spec fn spec_text(&self) -> Seq<char> {
        self@.0.spec_name() + ": "@ + self@.1
    }

    /// Render this error as text: the name of its kind, `": "`, then its message.
    pub fn to_text(&self) -> (r: String)
        ensures
            r@ == self.spec_text(),
    {
        let mut r = String::from_str(self.kind().name());
        r.append(": ");
        r.append(self.message());
        r
    }
}

} // verus!
