use vstd::prelude::*;
use crate::errors::IoError;

verus! {

/// A handle type that knows how to construct itself from a filesystem path.
/// Construction is an opaque capability of the handle type: nothing is
/// promised of it here, and a failed construction simply surfaces as the
/// wrapper's initial bad state.
pub trait FromPath: Sized {
    /// Opens (or creates) a handle addressed by `path`.
    fn from_path(path: &str) -> Result<Self, IoError>;
}

/// A handle type that knows how to construct itself from a network address,
/// written in the usual `host:port` form. Construction is an opaque
/// capability of the handle type, as with `FromPath`.
pub trait FromAddr: Sized {
    /// Connects a handle to the endpoint addressed by `addr`.
    fn from_addr(addr: &str) -> Result<Self, IoError>;
}

} // verus!
