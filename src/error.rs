use crate::cause::{is_conversion_kind, kind_of_cause, same_source, Cause, DockerError, EnvVarError, ResponseError};
use crate::kind::ErrorKind;
use http::Error as HttpError;
use hyper::Error as HyperError;
use hyper_tls::Error as TlsError;
use serde_json::Error as JsonError;
use std::io::Error as IoError;
use vstd::prelude::*;

verus! {

#[verifier::external_type_specification]
#[verifier::external_body]
pub struct ExBacktrace(failure::Backtrace);

/// Relies on failure::Backtrace::new: it records the call path when the
/// process enables backtraces, and is empty otherwise.
#[verifier::external_body]
fn capture_backtrace() -> failure::Backtrace {
    failure::Backtrace::new()
}

/// Whether nothing was recorded in the backtrace `b`.
pub uninterp spec fn backtrace_empty(b: failure::Backtrace) -> bool;

/// Relies on failure::Backtrace::is_empty: whether nothing was recorded, which
/// depends on the backtrace alone.
#[verifier::external_body]
fn backtrace_is_empty(b: &failure::Backtrace) -> (r: bool)
    ensures
        r == backtrace_empty(*b),
{
    b.is_empty()
}

/// The failure type of every fallible operation of the client.
#[derive(Debug)]
pub struct Error {
    kind: ErrorKind,
    cause: Option<Cause>,
    backtrace: failure::Backtrace,
}

/// What an [`Error`] says: its kind, and the raw failure it was made from.
pub struct ErrorView {
    pub kind: ErrorKind,
    pub cause: Option<Cause>,
}

impl View for Error {
    type V = ErrorView;

    closed spec fn view(&self) -> ErrorView {
        ErrorView { kind: self.kind, cause: self.cause }
    }
}

/// The error that converting the raw failure `c` yields.
pub open spec fn converted(c: Cause) -> ErrorView {
    ErrorView { kind: kind_of_cause(c), cause: Some(c) }
}

/// The error made from the bare kind `k`, with no cause.
pub open spec fn bare(k: ErrorKind) -> ErrorView {
    ErrorView { kind: k, cause: None }
}

/// The result type of every fallible operation of the client.
pub type Result<T> = core::result::Result<T, Error>;

impl Error {
    /// The backtrace recorded when this error was made.
    pub closed spec fn spec_backtrace(&self) -> failure::Backtrace {
        self.backtrace
    }

    /// An error that records `cause` as its direct cause, classified as `kind`.
    pub fn new(cause: Cause, kind: ErrorKind) -> (r: Error)
        ensures
            r@ == (ErrorView { kind, cause: Some(cause) }),
    {
        Error { kind, cause: Some(cause), backtrace: capture_backtrace() }
    }

    /// An error that arose locally, with no underlying cause.
    pub fn from_kind(kind: ErrorKind) -> (r: Error)
        ensures
            r@ == bare(kind),
    {
        Error { kind, cause: None, backtrace: capture_backtrace() }
    }

    /// Converts a raw failure, classifying it by its source.
    pub fn from_cause(cause: Cause) -> (r: Error)
        ensures
            r@ == converted(cause),
    {
        let kind = match &cause {
            Cause::Io(_) => ErrorKind::Io,
            Cause::Envvar(_) => ErrorKind::Envvar,
            Cause::Hyper(_) => ErrorKind::Hyper,
            Cause::Json(_) => ErrorKind::Json,
            Cause::Docker(_) => ErrorKind::Docker,
            Cause::Base64(_) => ErrorKind::Base64,
            Cause::Response(_) => ErrorKind::Response,
            Cause::Http(_) => ErrorKind::Http,
            Cause::InvalidUri(_) => ErrorKind::HttpUriInvalidUri,
            Cause::InvalidUriParts(_) => ErrorKind::HttpUriInvalidUriParts,
            Cause::HeaderToStr(_) => ErrorKind::HttpHeaderToStrError,
            Cause::Mime(_) => ErrorKind::MimeFromStrErr,
            Cause::Tls(_) => ErrorKind::HyperTlsError,
            Cause::OpenSsl(_) => ErrorKind::OpenSSL,
        };
        Error::new(cause, kind)
    }

    /// The classification of this error.
    pub fn kind(&self) -> (r: &ErrorKind)
        ensures
            *r == self@.kind,
    {
        &self.kind
    }

    /// The raw failure this error was made from, if any.
    pub fn cause(&self) -> (r: Option<&Cause>)
        ensures
            match r {
                Some(c) => self@.cause == Some(*c),
                None => self@.cause is None,
            },
    {
        match &self.cause {
            Some(c) => Some(c),
            None => None,
        }
    }

    /// The backtrace recorded when this error was made, or `None` where
    /// nothing was recorded.
    pub fn backtrace(&self) -> (r: Option<&failure::Backtrace>)
        ensures
            match r {
                Some(b) => *b == self.spec_backtrace(),
                None => true,
            },
            r is None <==> backtrace_empty(self.spec_backtrace()),
    {
        if backtrace_is_empty(&self.backtrace) {
            None
        } else {
            Some(&self.backtrace)
        }
    }

    /// The sentence shown for this error: that of its kind, without its cause.
    pub fn message(&self) -> (r: String)
        ensures
            r@ == self@.kind.display_text(),
    {
        self.kind.message()
    }
}

impl From<ErrorKind> for Error {
    fn from(kind: ErrorKind) -> (r: Error)
        ensures
            r@ == bare(kind),
    {
        Error::from_kind(kind)
    }
}

// Each conversion records a fresh backtrace, so no single `Error` value is
// the result; the `ensures` of each `from` states its kind and cause.
impl vstd::std_specs::convert::FromSpecImpl<ErrorKind> for Error {
    open spec fn obeys_from_spec() -> bool {
        false
    }

    open spec fn from_spec(kind: ErrorKind) -> Error {
        choose|r: Error| r@ == bare(kind)
    }
}

impl From<IoError> for Error {
    fn from(e: IoError) -> (r: Error)
        ensures
            r@ == converted(Cause::Io(e)),
    {
        Error::from_cause(Cause::Io(e))
    }
}

impl vstd::std_specs::convert::FromSpecImpl<IoError> for Error {
    open spec fn obeys_from_spec() -> bool {
        false
    }

    open spec fn from_spec(e: IoError) -> Error {
        choose|r: Error| r@ == converted(Cause::Io(e))
    }
}

impl From<EnvVarError> for Error {
    fn from(e: EnvVarError) -> (r: Error)
        ensures
            r@ == converted(Cause::Envvar(e)),
    {
        Error::from_cause(Cause::Envvar(e))
    }
}

impl vstd::std_specs::convert::FromSpecImpl<EnvVarError> for Error {
    open spec fn obeys_from_spec() -> bool {
        false
    }

    open spec fn from_spec(e: EnvVarError) -> Error {
        choose|r: Error| r@ == converted(Cause::Envvar(e))
    }
}

impl From<HyperError> for Error {
    fn from(e: HyperError) -> (r: Error)
        ensures
            r@ == converted(Cause::Hyper(e)),
    {
        Error::from_cause(Cause::Hyper(e))
    }
}

impl vstd::std_specs::convert::FromSpecImpl<HyperError> for Error {
    open spec fn obeys_from_spec() -> bool {
        false
    }

    open spec fn from_spec(e: HyperError) -> Error {
        choose|r: Error| r@ == converted(Cause::Hyper(e))
    }
}

impl From<JsonError> for Error {
    fn from(e: JsonError) -> (r: Error)
        ensures
            r@ == converted(Cause::Json(e)),
    {
        Error::from_cause(Cause::Json(e))
    }
}

impl vstd::std_specs::convert::FromSpecImpl<JsonError> for Error {
    open spec fn obeys_from_spec() -> bool {
        false
    }

    open spec fn from_spec(e: JsonError) -> Error {
        choose|r: Error| r@ == converted(Cause::Json(e))
    }
}

impl From<DockerError> for Error {
    fn from(e: DockerError) -> (r: Error)
        ensures
            r@ == converted(Cause::Docker(e)),
    {
        Error::from_cause(Cause::Docker(e))
    }
}

impl vstd::std_specs::convert::FromSpecImpl<DockerError> for Error {
    open spec fn obeys_from_spec() -> bool {
        false
    }

    open spec fn from_spec(e: DockerError) -> Error {
        choose|r: Error| r@ == converted(Cause::Docker(e))
    }
}

impl From<base64::DecodeError> for Error {
    fn from(e: base64::DecodeError) -> (r: Error)
        ensures
            r@ == converted(Cause::Base64(e)),
    {
        Error::from_cause(Cause::Base64(e))
    }
}

impl vstd::std_specs::convert::FromSpecImpl<base64::DecodeError> for Error {
    open spec fn obeys_from_spec() -> bool {
        false
    }

    open spec fn from_spec(e: base64::DecodeError) -> Error {
        choose|r: Error| r@ == converted(Cause::Base64(e))
    }
}

impl From<ResponseError> for Error {
    fn from(e: ResponseError) -> (r: Error)
        ensures
            r@ == converted(Cause::Response(e)),
    {
        Error::from_cause(Cause::Response(e))
    }
}

impl vstd::std_specs::convert::FromSpecImpl<ResponseError> for Error {
    open spec fn obeys_from_spec() -> bool {
        false
    }

    open spec fn from_spec(e: ResponseError) -> Error {
        choose|r: Error| r@ == converted(Cause::Response(e))
    }
}

impl From<HttpError> for Error {
    fn from(e: HttpError) -> (r: Error)
        ensures
            r@ == converted(Cause::Http(e)),
    {
        Error::from_cause(Cause::Http(e))
    }
}

impl vstd::std_specs::convert::FromSpecImpl<HttpError> for Error {
    open spec fn obeys_from_spec() -> bool {
        false
    }

    open spec fn from_spec(e: HttpError) -> Error {
        choose|r: Error| r@ == converted(Cause::Http(e))
    }
}

impl From<http::uri::InvalidUri> for Error {
    fn from(e: http::uri::InvalidUri) -> (r: Error)
        ensures
            r@ == converted(Cause::InvalidUri(e)),
    {
        Error::from_cause(Cause::InvalidUri(e))
    }
}

impl vstd::std_specs::convert::FromSpecImpl<http::uri::InvalidUri> for Error {
    open spec fn obeys_from_spec() -> bool {
        false
    }

    open spec fn from_spec(e: http::uri::InvalidUri) -> Error {
        choose|r: Error| r@ == converted(Cause::InvalidUri(e))
    }
}

impl From<http::uri::InvalidUriParts> for Error {
    fn from(e: http::uri::InvalidUriParts) -> (r: Error)
        ensures
            r@ == converted(Cause::InvalidUriParts(e)),
    {
        Error::from_cause(Cause::InvalidUriParts(e))
    }
}

impl vstd::std_specs::convert::FromSpecImpl<http::uri::InvalidUriParts> for Error {
    open spec fn obeys_from_spec() -> bool {
        false
    }

    open spec fn from_spec(e: http::uri::InvalidUriParts) -> Error {
        choose|r: Error| r@ == converted(Cause::InvalidUriParts(e))
    }
}

impl From<http::header::ToStrError> for Error {
    fn from(e: http::header::ToStrError) -> (r: Error)
        ensures
            r@ == converted(Cause::HeaderToStr(e)),
    {
        Error::from_cause(Cause::HeaderToStr(e))
    }
}

impl vstd::std_specs::convert::FromSpecImpl<http::header::ToStrError> for Error {
    open spec fn obeys_from_spec() -> bool {
        false
    }

    open spec fn from_spec(e: http::header::ToStrError) -> Error {
        choose|r: Error| r@ == converted(Cause::HeaderToStr(e))
    }
}

impl From<mime::FromStrError> for Error {
    fn from(e: mime::FromStrError) -> (r: Error)
        ensures
            r@ == converted(Cause::Mime(e)),
    {
        Error::from_cause(Cause::Mime(e))
    }
}

impl vstd::std_specs::convert::FromSpecImpl<mime::FromStrError> for Error {
    open spec fn obeys_from_spec() -> bool {
        false
    }

    open spec fn from_spec(e: mime::FromStrError) -> Error {
        choose|r: Error| r@ == converted(Cause::Mime(e))
    }
}

impl From<TlsError> for Error {
    fn from(e: TlsError) -> (r: Error)
        ensures
            r@ == converted(Cause::Tls(e)),
    {
        Error::from_cause(Cause::Tls(e))
    }
}

impl vstd::std_specs::convert::FromSpecImpl<TlsError> for Error {
    open spec fn obeys_from_spec() -> bool {
        false
    }

    open spec fn from_spec(e: TlsError) -> Error {
        choose|r: Error| r@ == converted(Cause::Tls(e))
    }
}

impl From<openssl::error::ErrorStack> for Error {
    fn from(e: openssl::error::ErrorStack) -> (r: Error)
        ensures
            r@ == converted(Cause::OpenSsl(e)),
    {
        Error::from_cause(Cause::OpenSsl(e))
    }
}

impl vstd::std_specs::convert::FromSpecImpl<openssl::error::ErrorStack> for Error {
    open spec fn obeys_from_spec() -> bool {
        false
    }

    open spec fn from_spec(e: openssl::error::ErrorStack) -> Error {
        choose|r: Error| r@ == converted(Cause::OpenSsl(e))
    }
}

/// Conversion is a function of the source of a raw failure: two raw failures
/// get the same kind exactly when they come from the same source, and that
/// kind is always one of the conversion kinds.
pub proof fn conversion_unambiguous(a: Cause, b: Cause)
    ensures
        kind_of_cause(a) == kind_of_cause(b) <==> same_source(a, b),
        is_conversion_kind(kind_of_cause(a)),
{
}

/// A converted error hands back, as its cause, the very raw failure it was
/// made from.
pub proof fn cause_round_trip(c: Cause)
    ensures
        converted(c).cause == Some(c),
        converted(c).kind == kind_of_cause(c),
{
}

/// An error made from a bare kind has no cause.
pub proof fn bare_kind_has_no_cause(k: ErrorKind)
    ensures
        bare(k).cause is None,
        bare(k).kind == k,
{
}

/// A malformed URI and mis-assembled URI parts convert to two different kinds.
pub proof fn uri_failures_distinct(a: http::uri::InvalidUri, b: http::uri::InvalidUriParts)
    ensures
        kind_of_cause(Cause::InvalidUri(a)) != kind_of_cause(Cause::InvalidUriParts(b)),
{
}

/// TLS-transport and cryptographic failures convert to two different kinds,
/// neither of which is the generic transport kind.
pub proof fn tls_failures_distinct(
    a: TlsError,
    b: openssl::error::ErrorStack,
    h: HyperError,
)
    ensures
        kind_of_cause(Cause::Tls(a)) != kind_of_cause(Cause::OpenSsl(b)),
        kind_of_cause(Cause::Tls(a)) != kind_of_cause(Cause::Hyper(h)),
        kind_of_cause(Cause::OpenSsl(b)) != kind_of_cause(Cause::Hyper(h)),
{
}

} // verus!
