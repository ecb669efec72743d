//! The input capability: a fuzz case with a canonical byte representation.

use vstd::prelude::*;

use crate::error::ExecError;

verus! {

/// A fuzz case.
///
/// An input may or may not have a canonical byte form in its current
/// state; `byte_repr` is that form, and `serialize` produces it.  The
/// reverse direction is `decoded`: which state, if any, a byte buffer
/// reconstructs.  While loaded, an input is exclusively owned by the
/// executor's single input slot.
pub trait Input: Sized {
    /// The canonical byte form of the current state, if one exists.
    /// Implementations verified against this trait override the default,
    /// which models an input with no canonical byte form at all.
    open spec fn byte_repr(&self) -> Option<Seq<u8>> {
        None
    }

    /// The state a byte buffer reconstructs, if it is well formed.  The
    /// default, likewise meant to be overridden, treats every buffer as
    /// malformed.
    open spec fn decoded(bytes: Seq<u8>) -> Option<Self> {
        None
    }

    /// Produce the canonical byte form, or fail when none exists.
    fn serialize(&self) -> (r: Result<Vec<u8>, ExecError>)
        ensures
            match r {
                Result::Ok(bytes) => self.byte_repr() == Some(bytes@),
                Result::Err(e) => self.byte_repr() is None && e == ExecError::SerializationFailure,
            },
    ;

    /// Reconstruct the state from a byte buffer, or fail on malformed bytes.
    fn deserialize(&mut self, buf: &[u8]) -> (r: Result<(), ExecError>)
        ensures
            match r {
                Result::Ok(()) => Self::decoded(buf@) == Some(*final(self)),
                Result::Err(e) => Self::decoded(buf@) is None,
            },
    ;
}

} // verus!
