use vstd::prelude::*;

verus! {

/// The kind of an I/O failure. The taxonomy is inherited from the platform's
/// standard I/O error model; this library adds no kinds of its own.
#[derive(Clone, Copy, Debug, PartialEq, Eq, Structural)]
pub enum ErrorKind {
    NotFound,
    PermissionDenied,
    ConnectionRefused,
    ConnectionReset,
    InvalidInput,
    InvalidData,
    WriteZero,
    Interrupted,
    UnexpectedEof,
    Other,
}

/// A captured I/O failure: the platform's kind together with a descriptive
/// message. Once a wrapper goes bad it carries one of these until a recovery
/// combinator inspects it.
#[derive(Clone, Debug, PartialEq, Eq)]
pub struct IoError {
    pub kind: ErrorKind,
    pub message: String,
}

impl IoError {
    /// Builds an error from a kind and a message.
    pub fn new(kind: ErrorKind, message: String) -> (e: IoError)
        ensures
            e.kind == kind,
            e.message == message,
    {
        IoError { kind, message }
    }
}

#[verifier::external_type_specification]
#[verifier::external_body]
pub struct ExStdIoError(std::io::Error);

/// Relies on std::io::Error::kind: reads the platform error's kind and maps
/// each variant to the matching kind of this library, one arm each.
#[verifier::external_body]
fn std_err_kind(e: &std::io::Error) -> ErrorKind {
    match e.kind() {
        std::io::ErrorKind::NotFound => ErrorKind::NotFound,
        std::io::ErrorKind::PermissionDenied => ErrorKind::PermissionDenied,
        std::io::ErrorKind::ConnectionRefused => ErrorKind::ConnectionRefused,
        std::io::ErrorKind::ConnectionReset => ErrorKind::ConnectionReset,
        std::io::ErrorKind::InvalidInput => ErrorKind::InvalidInput,
        std::io::ErrorKind::InvalidData => ErrorKind::InvalidData,
        std::io::ErrorKind::WriteZero => ErrorKind::WriteZero,
        std::io::ErrorKind::Interrupted => ErrorKind::Interrupted,
        std::io::ErrorKind::UnexpectedEof => ErrorKind::UnexpectedEof,
        _ => ErrorKind::Other,
    }
}

/// Relies on the Display impl of std::io::Error (through ToString): the
/// platform's descriptive message for the error.
#[verifier::external_body]
fn std_err_message(e: &std::io::Error) -> String {
    e.to_string()
}

impl IoError {
    /// Carries a platform error over into the library's representation.
    /// Nothing can be stated of the result: which kind and message come
    /// back depends on the opaque platform error alone.
    pub fn from_std(e: std::io::Error) -> IoError {
        IoError { kind: std_err_kind(&e), message: std_err_message(&e) }
    }
}

} // verus!
