use vstd::prelude::*;

verus! {

/// The single failure channel of the decoder. Every error is fatal: the
/// table stream is foundational, so no partial result is ever returned.
#[derive(Debug, PartialEq, Eq, Structural, Copy, Clone)]
pub enum Error {
    /// A primitive read ran past the end of the buffer.
    BoundsError,
    /// A field specified as "must be zero" held a non-zero value.
    ReservedFieldViolation,
    /// The tag bits of a coded index matched no table of its kind.
    UnknownCodedIndexTag,
}

} // verus!
