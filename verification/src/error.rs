//! The closed set of failure kinds shared by the gateway and the router.
use vstd::prelude::*;
use vstd::string::*;

verus! {

/// The tag of an [`AppError`], without its message.
#[derive(Clone, Copy, Debug, PartialEq, Eq, Structural)]
pub enum ErrorKind {
    Backend,
    Network,
    Auth,
    Validation,
    NotFound,
    Internal,
}

/// A classified failure with its human-readable message.
#[derive(Clone, Debug, PartialEq, Eq)]
pub enum AppError {
    /// The backend answered with a client-error status and a message of its own.
    Backend(String),
    /// Timeout, refused connection or no connectivity.
    Network(String),
    /// Authentication errors.
    Auth(String),
    /// A locally rejected input.
    Validation(String),
    /// Resource not found.
    NotFound(String),
    /// Decode failures and server-side errors.
    Internal(String),
}

/// Result with an [`AppError`].
pub type AppResult<T> = Result<T, AppError>;

/// How a dispatched request failed before any response arrived.
#[derive(Clone, Debug, PartialEq, Eq)]
pub enum TransportFailure {
    /// The total request timeout elapsed.
    Timeout,
    /// The connection could not be established.
    Connect,
    /// Any other transport error, with its display text.
    Other(String),
}

/// The text that precedes the message of an error of the given kind.
pub open spec fn kind_prefix(kind: ErrorKind) -> Seq<char> {
    match kind {
        ErrorKind::Backend => "Backend error: "@,
        ErrorKind::Network => "Network error: "@,
        ErrorKind::Auth => "Authentication error: "@,
        ErrorKind::Validation => "Validation error: "@,
        ErrorKind::NotFound => "Not found: "@,
        ErrorKind::Internal => "Internal error: "@,
    }
}

impl View for AppError {
    type V = (ErrorKind, Seq<char>);

    open spec fn view(&self) -> (ErrorKind, Seq<char>) {
        match self {
            AppError::Backend(m) => (ErrorKind::Backend, m@),
            AppError::Network(m) => (ErrorKind::Network, m@),
            AppError::Auth(m) => (ErrorKind::Auth, m@),
            AppError::Validation(m) => (ErrorKind::Validation, m@),
            AppError::NotFound(m) => (ErrorKind::NotFound, m@),
            AppError::Internal(m) => (ErrorKind::Internal, m@),
        }
    }
}

impl AppError {
    /// The user-visible text: the kind's prefix followed by the message.
    pub open spec fn display(&self) -> Seq<char> {
        kind_prefix(self@.0) + self@.1
    }

    /// The failure kind.
    pub fn kind(&self) -> (k: ErrorKind)
        ensures
            k == self@.0,
    {
        match self {
            AppError::Backend(_) => ErrorKind::Backend,
            AppError::Network(_) => ErrorKind::Network,
            AppError::Auth(_) => ErrorKind::Auth,
            AppError::Validation(_) => ErrorKind::Validation,
            AppError::NotFound(_) => ErrorKind::NotFound,
            AppError::Internal(_) => ErrorKind::Internal,
        }
    }

    /// The message, without the kind's prefix.
    pub fn message(&self) -> (m: &str)
        ensures
            m@ == self@.1,
    {
        match self {
            AppError::Backend(m) => m.as_str(),
            AppError::Network(m) => m.as_str(),
            AppError::Auth(m) => m.as_str(),
            AppError::Validation(m) => m.as_str(),
            AppError::NotFound(m) => m.as_str(),
            AppError::Internal(m) => m.as_str(),
        }
    }

    /// The string form handed to the user interface.
    pub fn to_string(&self) -> (r: String)
        ensures
            r@ == self.display(),
    {
        let prefix = match self {
            AppError::Backend(_) => "Backend error: ",
            AppError::Network(_) => "Network error: ",
            AppError::Auth(_) => "Authentication error: ",
            AppError::Validation(_) => "Validation error: ",
            AppError::NotFound(_) => "Not found: ",
            AppError::Internal(_) => "Internal error: ",
        };
        String::from_str(prefix).concat(self.message())
    }
}

/// The spec of the conversion from a transport failure: always a network
/// error, with a fixed message for timeouts and failed connections.
pub open spec fn transport_error_view(f: TransportFailure) -> (ErrorKind, Seq<char>) {
    match f {
        TransportFailure::Timeout => (ErrorKind::Network, "Request timeout"@),
        TransportFailure::Connect => (ErrorKind::Network, "Connection failed"@),
        TransportFailure::Other(text) => (ErrorKind::Network, text@),
    }
}

impl AppError {
    /// Converts a transport failure met outside the request pipeline.
    pub fn from_transport(f: TransportFailure) -> (e: AppError)
        ensures
            e@ == transport_error_view(f),
    {
        match f {
            TransportFailure::Timeout => AppError::Network(String::from_str("Request timeout")),
            TransportFailure::Connect => AppError::Network(String::from_str("Connection failed")),
            TransportFailure::Other(text) => AppError::Network(text),
        }
    }
}

} // verus!
