//! Error classification for a client of a container-management daemon.
//!
//! Every failure raised by a collaborator of the client is carried as an
//! [`Error`]: a categorical [`ErrorKind`], the original failure as its cause,
//! and a backtrace when diagnostic capture is enabled.

mod cause;
mod error;
mod kind;

pub use cause::{
    is_conversion_kind, kind_of_cause, same_source, Cause, DockerError, EnvVarError,
    ResponseError,
};
pub use error::{
    backtrace_empty, bare, bare_kind_has_no_cause, cause_round_trip, conversion_unambiguous, converted,
    tls_failures_distinct, uri_failures_distinct, Error, ErrorView, Result,
};
pub use kind::{contains, fields_shown, shown_field, unknown_only_in_catch_all, ErrorKind};
