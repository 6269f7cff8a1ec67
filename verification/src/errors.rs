//! Failure taxonomy and the error classifier.
//!
//! A failure raised while a request is processed is either a structural
//! validation failure (malformed or mistyped input, detected before the
//! search backend is reached) or a generic failure reported from elsewhere,
//! typically the backend. The classifier maps a failure to the user-facing
//! error shape; both kinds render with HTTP status 400, the `kind`
//! discriminator only differentiates the messages.

use vstd::prelude::*;
use vstd::string::StringExecFns;

verus! {

/// Discriminator of the two user-facing error categories.
#[derive(PartialEq, Eq, Structural, Clone, Copy, Debug)]
pub enum ErrorKind {
    Validation,
    BadRequest,
}

/// A failure raised anywhere upstream of response rendering, before
/// classification. `Validation` carries the structural reason (the malformed
/// field path); `Backend` carries the textual description of a generic
/// failure.
#[derive(Debug)]
pub enum Failure {
    Validation(String),
    Backend(String),
}

/// The classified, user-facing error shape.
#[derive(Debug)]
pub struct ServiceError {
    pub kind: ErrorKind,
    pub short: String,
    pub long: String,
}

/// The `short` field a failure is classified with.
pub open spec fn short_of(f: Failure) -> Seq<char> {
    match f {
        Failure::Validation(_) => "validation error"@,
        Failure::Backend(_) => "bad_request"@,
    }
}

/// The `long` field a failure is classified with.
pub open spec fn long_of(f: Failure) -> Seq<char> {
    match f {
        Failure::Validation(d) => "invalid arguments "@ + d@,
        Failure::Backend(m) => "bad request, error: "@ + m@,
    }
}

/// The kind a failure is classified with.
pub open spec fn kind_of(f: Failure) -> ErrorKind {
    match f {
        Failure::Validation(_) => ErrorKind::Validation,
        Failure::Backend(_) => ErrorKind::BadRequest,
    }
}

/// Maps a failure to the structured, user-facing error shape with a stable
/// `kind` discriminator: validation failures keep their structural reason,
/// anything else is surfaced as a generic bad request.
pub fn classify(f: &Failure) -> (e: ServiceError)
    ensures
        e.kind == kind_of(*f),
        e.short@ == short_of(*f),
        e.long@ == long_of(*f),
{
    match f {
        Failure::Validation(d) => ServiceError {
            kind: ErrorKind::Validation,
            short: String::from_str("validation error"),
            long: String::from_str("invalid arguments ").concat(d.as_str()),
        },
        Failure::Backend(m) => ServiceError {
            kind: ErrorKind::BadRequest,
            short: String::from_str("bad_request"),
            long: String::from_str("bad request, error: ").concat(m.as_str()),
        },
    }
}

/// The message of a validation failure that names a malformed field.
pub open spec fn invalid_param_msg(field: Seq<char>) -> Seq<char> {
    "invalid parameter "@ + field
}

/// Holds when `f` is the validation failure for the malformed field `field`.
pub open spec fn is_invalid_param(f: Failure, field: Seq<char>) -> bool {
    f matches Failure::Validation(d) && d@ == invalid_param_msg(field)
}

/// Builds the validation failure for the malformed field `field`.
pub fn invalid_param(field: &str) -> (f: Failure)
    ensures
        is_invalid_param(f, field@),
{
    Failure::Validation(String::from_str("invalid parameter ").concat(field))
}

} // verus!
