use crate::kind::ErrorKind;
use http::Error as HttpError;
use hyper::Error as HyperError;
use serde_json::Error as JsonError;
use std::io::Error as IoError;
use hyper_tls::Error as TlsError;
use vstd::prelude::*;

verus! {

#[verifier::external_type_specification]
#[verifier::external_body]
pub struct ExIoError(IoError);

#[verifier::external_type_specification]
#[verifier::external_body]
pub struct ExHyperError(HyperError);

#[verifier::external_type_specification]
#[verifier::external_body]
pub struct ExJsonError(JsonError);

#[verifier::external_type_specification]
#[verifier::external_body]
pub struct ExDecodeError(base64::DecodeError);

#[verifier::external_type_specification]
#[verifier::external_body]
pub struct ExHttpError(HttpError);

#[verifier::external_type_specification]
#[verifier::external_body]
pub struct ExInvalidUri(http::uri::InvalidUri);

#[verifier::external_type_specification]
#[verifier::external_body]
pub struct ExInvalidUriParts(http::uri::InvalidUriParts);

#[verifier::external_type_specification]
#[verifier::external_body]
pub struct ExToStrError(http::header::ToStrError);

#[verifier::external_type_specification]
#[verifier::external_body]
pub struct ExMimeError(mime::FromStrError);

#[verifier::external_type_specification]
#[verifier::external_body]
pub struct ExTlsError(TlsError);

#[verifier::external_type_specification]
#[verifier::external_body]
pub struct ExErrorStack(openssl::error::ErrorStack);

/// Why an environment variable could not be read.
#[derive(Debug, Clone, PartialEq, Eq)]
pub enum EnvVarError {
    /// The variable is not set.
    NotPresent,
    /// The variable is set, but its value is not valid Unicode; these are
    /// the platform's encoded bytes of that value.
    NotUnicode(Vec<u8>),
}

/// An error message sent back by the daemon.
#[derive(Debug, Clone, PartialEq, Eq)]
pub struct DockerError {
    pub message: String,
}

/// A response whose envelope could not be decoded.
#[derive(Debug, Clone, PartialEq, Eq)]
pub struct ResponseError {
    pub message: String,
}

/// A raw failure of one of the client's collaborators, kept as it was raised.
#[derive(Debug)]
pub enum Cause {
    /// A local I/O failure.
    Io(IoError),
    /// An environment-variable lookup failure.
    Envvar(EnvVarError),
    /// An HTTP-transport failure.
    Hyper(HyperError),
    /// A JSON (de)serialization failure.
    Json(JsonError),
    /// An error reported by the daemon.
    Docker(DockerError),
    /// A base64 decoding failure.
    Base64(base64::DecodeError),
    /// A failure in a response envelope.
    Response(ResponseError),
    /// A failure while building an HTTP request or response.
    Http(HttpError),
    /// Malformed URI text.
    InvalidUri(http::uri::InvalidUri),
    /// URI parts that do not assemble into a URI.
    InvalidUriParts(http::uri::InvalidUriParts),
    /// A header value that is not visible ASCII.
    HeaderToStr(http::header::ToStrError),
    /// A media type that does not parse.
    Mime(mime::FromStrError),
    /// A TLS-transport failure.
    Tls(TlsError),
    /// A failure of the cryptographic library.
    OpenSsl(openssl::error::ErrorStack),
}

/// The one kind that each source of raw failures converts to.
pub open spec fn kind_of_cause(c: Cause) -> ErrorKind {
    match c {
        Cause::Io(_) => ErrorKind::Io,
        Cause::Envvar(_) => ErrorKind::Envvar,
        Cause::Hyper(_) => ErrorKind::Hyper,
        Cause::Json(_) => ErrorKind::Json,
        Cause::Docker(_) => ErrorKind::Docker,
        Cause::Base64(_) => ErrorKind::Base64,
        Cause::Response(_) => ErrorKind::Response,
        Cause::Http(_) => ErrorKind::Http,
        Cause::InvalidUri(_) => ErrorKind::HttpUriInvalidUri,
        Cause::InvalidUriParts(_) => ErrorKind::HttpUriInvalidUriParts,
        Cause::HeaderToStr(_) => ErrorKind::HttpHeaderToStrError,
        Cause::Mime(_) => ErrorKind::MimeFromStrErr,
        Cause::Tls(_) => ErrorKind::HyperTlsError,
        Cause::OpenSsl(_) => ErrorKind::OpenSSL,
    }
}

/// `a` and `b` come from the same source of raw failures.
pub open spec fn same_source(a: Cause, b: Cause) -> bool {
    match (a, b) {
        (Cause::Io(_), Cause::Io(_)) => true,
        (Cause::Envvar(_), Cause::Envvar(_)) => true,
        (Cause::Hyper(_), Cause::Hyper(_)) => true,
        (Cause::Json(_), Cause::Json(_)) => true,
        (Cause::Docker(_), Cause::Docker(_)) => true,
        (Cause::Base64(_), Cause::Base64(_)) => true,
        (Cause::Response(_), Cause::Response(_)) => true,
        (Cause::Http(_), Cause::Http(_)) => true,
        (Cause::InvalidUri(_), Cause::InvalidUri(_)) => true,
        (Cause::InvalidUriParts(_), Cause::InvalidUriParts(_)) => true,
        (Cause::HeaderToStr(_), Cause::HeaderToStr(_)) => true,
        (Cause::Mime(_), Cause::Mime(_)) => true,
        (Cause::Tls(_), Cause::Tls(_)) => true,
        (Cause::OpenSsl(_), Cause::OpenSsl(_)) => true,
        _ => false,
    }
}

/// A kind that some raw failure converts to, as opposed to one that the
/// client raises on its own account.
pub open spec fn is_conversion_kind(k: ErrorKind) -> bool {
    match k {
        ErrorKind::Io
        | ErrorKind::Envvar
        | ErrorKind::Hyper
        | ErrorKind::Json
        | ErrorKind::Docker
        | ErrorKind::Base64
        | ErrorKind::Response
        | ErrorKind::Http
        | ErrorKind::HttpUriInvalidUri
        | ErrorKind::HttpUriInvalidUriParts
        | ErrorKind::HttpHeaderToStrError
        | ErrorKind::MimeFromStrErr
        | ErrorKind::HyperTlsError
        | ErrorKind::OpenSSL => true,
        _ => false,
    }
}

impl From<IoError> for Cause {
    fn from(e: IoError) -> (r: Cause) {
        Cause::Io(e)
    }
}

impl vstd::std_specs::convert::FromSpecImpl<IoError> for Cause {
    open spec fn obeys_from_spec() -> bool {
        true
    }

    open spec fn from_spec(e: IoError) -> Cause {
        Cause::Io(e)
    }
}

impl From<EnvVarError> for Cause {
    fn from(e: EnvVarError) -> (r: Cause) {
        Cause::Envvar(e)
    }
}

impl vstd::std_specs::convert::FromSpecImpl<EnvVarError> for Cause {
    open spec fn obeys_from_spec() -> bool {
        true
    }

    open spec fn from_spec(e: EnvVarError) -> Cause {
        Cause::Envvar(e)
    }
}

impl From<HyperError> for Cause {
    fn from(e: HyperError) -> (r: Cause) {
        Cause::Hyper(e)
    }
}

impl vstd::std_specs::convert::FromSpecImpl<HyperError> for Cause {
    open spec fn obeys_from_spec() -> bool {
        true
    }

    open spec fn from_spec(e: HyperError) -> Cause {
        Cause::Hyper(e)
    }
}

impl From<JsonError> for Cause {
    fn from(e: JsonError) -> (r: Cause) {
        Cause::Json(e)
    }
}

impl vstd::std_specs::convert::FromSpecImpl<JsonError> for Cause {
    open spec fn obeys_from_spec() -> bool {
        true
    }

    open spec fn from_spec(e: JsonError) -> Cause {
        Cause::Json(e)
    }
}

impl From<DockerError> for Cause {
    fn from(e: DockerError) -> (r: Cause) {
        Cause::Docker(e)
    }
}

impl vstd::std_specs::convert::FromSpecImpl<DockerError> for Cause {
    open spec fn obeys_from_spec() -> bool {
        true
    }

    open spec fn from_spec(e: DockerError) -> Cause {
        Cause::Docker(e)
    }
}

impl From<base64::DecodeError> for Cause {
    fn from(e: base64::DecodeError) -> (r: Cause) {
        Cause::Base64(e)
    }
}

impl vstd::std_specs::convert::FromSpecImpl<base64::DecodeError> for Cause {
    open spec fn obeys_from_spec() -> bool {
        true
    }

    open spec fn from_spec(e: base64::DecodeError) -> Cause {
        Cause::Base64(e)
    }
}

impl From<ResponseError> for Cause {
    fn from(e: ResponseError) -> (r: Cause) {
        Cause::Response(e)
    }
}

impl vstd::std_specs::convert::FromSpecImpl<ResponseError> for Cause {
    open spec fn obeys_from_spec() -> bool {
        true
    }

    open spec fn from_spec(e: ResponseError) -> Cause {
        Cause::Response(e)
    }
}

impl From<HttpError> for Cause {
    fn from(e: HttpError) -> (r: Cause) {
        Cause::Http(e)
    }
}

impl vstd::std_specs::convert::FromSpecImpl<HttpError> for Cause {
    open spec fn obeys_from_spec() -> bool {
        true
    }

    open spec fn from_spec(e: HttpError) -> Cause {
        Cause::Http(e)
    }
}

impl From<http::uri::InvalidUri> for Cause {
    fn from(e: http::uri::InvalidUri) -> (r: Cause) {
        Cause::InvalidUri(e)
    }
}

impl vstd::std_specs::convert::FromSpecImpl<http::uri::InvalidUri> for Cause {
    open spec fn obeys_from_spec() -> bool {
        true
    }

    open spec fn from_spec(e: http::uri::InvalidUri) -> Cause {
        Cause::InvalidUri(e)
    }
}

impl From<http::uri::InvalidUriParts> for Cause {
    fn from(e: http::uri::InvalidUriParts) -> (r: Cause) {
        Cause::InvalidUriParts(e)
    }
}

impl vstd::std_specs::convert::FromSpecImpl<http::uri::InvalidUriParts> for Cause {
    open spec fn obeys_from_spec() -> bool {
        true
    }

    open spec fn from_spec(e: http::uri::InvalidUriParts) -> Cause {
        Cause::InvalidUriParts(e)
    }
}

impl From<http::header::ToStrError> for Cause {
    fn from(e: http::header::ToStrError) -> (r: Cause) {
        Cause::HeaderToStr(e)
    }
}

impl vstd::std_specs::convert::FromSpecImpl<http::header::ToStrError> for Cause {
    open spec fn obeys_from_spec() -> bool {
        true
    }

    open spec fn from_spec(e: http::header::ToStrError) -> Cause {
        Cause::HeaderToStr(e)
    }
}

impl From<mime::FromStrError> for Cause {
    fn from(e: mime::FromStrError) -> (r: Cause) {
        Cause::Mime(e)
    }
}

impl vstd::std_specs::convert::FromSpecImpl<mime::FromStrError> for Cause {
    open spec fn obeys_from_spec() -> bool {
        true
    }

    open spec fn from_spec(e: mime::FromStrError) -> Cause {
        Cause::Mime(e)
    }
}

impl From<TlsError> for Cause {
    fn from(e: TlsError) -> (r: Cause) {
        Cause::Tls(e)
    }
}

impl vstd::std_specs::convert::FromSpecImpl<TlsError> for Cause {
    open spec fn obeys_from_spec() -> bool {
        true
    }

    open spec fn from_spec(e: TlsError) -> Cause {
        Cause::Tls(e)
    }
}

impl From<openssl::error::ErrorStack> for Cause {
    fn from(e: openssl::error::ErrorStack) -> (r: Cause) {
        Cause::OpenSsl(e)
    }
}

impl vstd::std_specs::convert::FromSpecImpl<openssl::error::ErrorStack> for Cause {
    open spec fn obeys_from_spec() -> bool {
        true
    }

    open spec fn from_spec(e: openssl::error::ErrorStack) -> Cause {
        Cause::OpenSsl(e)
    }
}

} // verus!
