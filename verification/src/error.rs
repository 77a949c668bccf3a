//! The error kinds an adapter operation can fail with.

use vstd::prelude::*;

verus! {

/// Why an adapter operation failed.
///
/// Errors that a live host would raise as exceptions cross the boundary as
/// [`Error::HostError`]; errors of the adapter's own checks keep their kind.
#[derive(Clone, Copy, PartialEq, Eq, Structural, Debug)]
pub enum Error {
    /// A foreign value could not be coerced to the declared type.
    ConversionError,
    /// Argument arity disagreed with the declared signature on a call.
    SignatureMismatch,
    /// The host runtime refused the operation or raised an exception.
    HostError,
    /// An exported item broke a promise of the external parser or host:
    /// a missing declared signature, a wrong host class, a table below its
    /// declared minimum, or an exported table whose element type is not
    /// `funcref`.
    InvariantViolation,
    /// A table index beyond the current size on a write.
    OutOfBounds,
    /// A host callable was invoked after the store that owned its closure
    /// was no longer the one in hand.
    StoreDropped,
    /// An `ExternRef` was used with a store it was not created in.
    CrossStore,
    /// An `ExternRef` payload was read at a different type than it was
    /// stored with.
    TypeMismatch,
    /// Two imports share the same module and item name.
    DuplicateImport,
}

impl Error {
    /// A short name for the error, for display by unverified callers.
    pub fn describe(&self) -> (r: &'static str) {
        match self {
            Error::ConversionError => "conversion error",
            Error::SignatureMismatch => "signature mismatch",
            Error::HostError => "host error",
            Error::InvariantViolation => "invariant violation",
            Error::OutOfBounds => "out of bounds",
            Error::StoreDropped => "store dropped",
            Error::CrossStore => "cross-store reference",
            Error::TypeMismatch => "type mismatch",
            Error::DuplicateImport => "duplicate import",
        }
    }
}

} // verus!
