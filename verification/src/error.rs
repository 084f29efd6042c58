//! The error taxonomy shared by every layer: a kind that classifies the
//! failure plus a free-text description. Transport failures are classified
//! into the same taxonomy, and the outward HTTP gateway maps each kind to a
//! status code; both mappings live here as verified functions.

use vstd::prelude::*;

verus! {

/// Classification of every failure the protocol core can report.
#[derive(Debug, Clone, Copy, PartialEq, Eq, Structural)]
pub enum UnicomErrorKind {
    NotFound,
    Unknown,
    ParameterInvalid,
    InputInvalid,
    LostConnection,
    Internal,
    Timeout,
    DataInvalid,
    ParseError,
    Empty,
    ErrorUnknown,
    MandatoryMissing,
    NotAllowed,
    MethodNotAllowed,
    OutOfMemory,
    RenderFailed,
}

/// An error value: its kind plus a human-readable description.
#[derive(Debug, Clone)]
pub struct UnicomError {
    pub kind: UnicomErrorKind,
    pub description: String,
}

impl UnicomError {
    /// Build an error of the given kind carrying the given description.
    pub fn new(kind: UnicomErrorKind, description: &str) -> (e: UnicomError)
        ensures
            e.kind == kind,
            e.description@ == description@,
    {
        UnicomError { kind, description: description.to_owned() }
    }
}

/// Transport-level failure classes, as the local I/O layer reports them.
/// The unverified transport code converts the platform's error class to this
/// enumeration one-for-one before handing a failure to the core.
#[derive(Debug, Clone, Copy, PartialEq, Eq, Structural)]
pub enum IoErrorClass {
    NotFound,
    PermissionDenied,
    ConnectionRefused,
    ConnectionReset,
    ConnectionAborted,
    NotConnected,
    AddrInUse,
    AddrNotAvailable,
    BrokenPipe,
    InvalidInput,
    InvalidData,
    TimedOut,
    WriteZero,
    Interrupted,
    Unsupported,
    UnexpectedEof,
    OutOfMemory,
    Other,
}

/// How each transport failure class is folded into the error taxonomy.
pub open spec fn spec_kind_of_io_class(c: IoErrorClass) -> UnicomErrorKind {
    match c {
        IoErrorClass::NotFound => UnicomErrorKind::NotFound,
        IoErrorClass::PermissionDenied => UnicomErrorKind::NotAllowed,
        IoErrorClass::ConnectionRefused => UnicomErrorKind::NotAllowed,
        IoErrorClass::ConnectionReset => UnicomErrorKind::LostConnection,
        IoErrorClass::ConnectionAborted => UnicomErrorKind::LostConnection,
        IoErrorClass::NotConnected => UnicomErrorKind::LostConnection,
        IoErrorClass::AddrInUse => UnicomErrorKind::NotAllowed,
        IoErrorClass::AddrNotAvailable => UnicomErrorKind::LostConnection,
        IoErrorClass::BrokenPipe => UnicomErrorKind::LostConnection,
        IoErrorClass::InvalidInput => UnicomErrorKind::InputInvalid,
        IoErrorClass::InvalidData => UnicomErrorKind::DataInvalid,
        IoErrorClass::TimedOut => UnicomErrorKind::Timeout,
        IoErrorClass::WriteZero => UnicomErrorKind::Empty,
        IoErrorClass::Interrupted => UnicomErrorKind::LostConnection,
        IoErrorClass::Unsupported => UnicomErrorKind::NotAllowed,
        IoErrorClass::UnexpectedEof => UnicomErrorKind::ParseError,
        IoErrorClass::OutOfMemory => UnicomErrorKind::OutOfMemory,
        IoErrorClass::Other => UnicomErrorKind::ErrorUnknown,
    }
}

/// Classify a transport failure into the error taxonomy.
pub fn kind_of_io_class(c: IoErrorClass) -> (k: UnicomErrorKind)
    ensures
        k == spec_kind_of_io_class(c),
{
    match c {
        IoErrorClass::NotFound => UnicomErrorKind::NotFound,
        IoErrorClass::PermissionDenied => UnicomErrorKind::NotAllowed,
        IoErrorClass::ConnectionRefused => UnicomErrorKind::NotAllowed,
        IoErrorClass::ConnectionReset => UnicomErrorKind::LostConnection,
        IoErrorClass::ConnectionAborted => UnicomErrorKind::LostConnection,
        IoErrorClass::NotConnected => UnicomErrorKind::LostConnection,
        IoErrorClass::AddrInUse => UnicomErrorKind::NotAllowed,
        IoErrorClass::AddrNotAvailable => UnicomErrorKind::LostConnection,
        IoErrorClass::BrokenPipe => UnicomErrorKind::LostConnection,
        IoErrorClass::InvalidInput => UnicomErrorKind::InputInvalid,
        IoErrorClass::InvalidData => UnicomErrorKind::DataInvalid,
        IoErrorClass::TimedOut => UnicomErrorKind::Timeout,
        IoErrorClass::WriteZero => UnicomErrorKind::Empty,
        IoErrorClass::Interrupted => UnicomErrorKind::LostConnection,
        IoErrorClass::Unsupported => UnicomErrorKind::NotAllowed,
        IoErrorClass::UnexpectedEof => UnicomErrorKind::ParseError,
        IoErrorClass::OutOfMemory => UnicomErrorKind::OutOfMemory,
        IoErrorClass::Other => UnicomErrorKind::ErrorUnknown,
    }
}

/// The HTTP status code the outward gateway answers with for each kind.
pub open spec fn spec_http_status(k: UnicomErrorKind) -> u16 {
    match k {
        UnicomErrorKind::NotFound => 404,
        UnicomErrorKind::Unknown => 204,
        UnicomErrorKind::ParameterInvalid => 400,
        UnicomErrorKind::InputInvalid => 406,
        UnicomErrorKind::LostConnection => 424,
        UnicomErrorKind::Internal => 500,
        UnicomErrorKind::Timeout => 424,
        UnicomErrorKind::DataInvalid => 417,
        UnicomErrorKind::ParseError => 500,
        UnicomErrorKind::Empty => 204,
        UnicomErrorKind::ErrorUnknown => 500,
        UnicomErrorKind::MandatoryMissing => 400,
        UnicomErrorKind::MethodNotAllowed => 405,
        UnicomErrorKind::NotAllowed => 403,
        UnicomErrorKind::OutOfMemory => 500,
        UnicomErrorKind::RenderFailed => 500,
    }
}

/// Translate an error kind to the HTTP status code the gateway uses.
pub fn http_status(k: UnicomErrorKind) -> (code: u16)
    ensures
        code == spec_http_status(k),
{
    match k {
        UnicomErrorKind::NotFound => 404,
        UnicomErrorKind::Unknown => 204,
        UnicomErrorKind::ParameterInvalid => 400,
        UnicomErrorKind::InputInvalid => 406,
        UnicomErrorKind::LostConnection => 424,
        UnicomErrorKind::Internal => 500,
        UnicomErrorKind::Timeout => 424,
        UnicomErrorKind::DataInvalid => 417,
        UnicomErrorKind::ParseError => 500,
        UnicomErrorKind::Empty => 204,
        UnicomErrorKind::ErrorUnknown => 500,
        UnicomErrorKind::MandatoryMissing => 400,
        UnicomErrorKind::MethodNotAllowed => 405,
        UnicomErrorKind::NotAllowed => 403,
        UnicomErrorKind::OutOfMemory => 500,
        UnicomErrorKind::RenderFailed => 500,
    }
}

} // verus!
