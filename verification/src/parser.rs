//! The error taxonomy shared by every decoder in the crate.
use vstd::prelude::*;

verus! {

/// An error produced while decoding a binary structure.
#[derive(Debug, Clone, Copy, PartialEq, Eq, Structural)]
pub enum ParserError {
    /// The decoder expected more data than it got; carries how many bytes
    /// were missing.
    TooLittleData(usize),
    /// Like `TooLittleData`, but specific to a fixed-size header region.
    HeaderIncomplete(usize),
    /// A fixed marker byte did not have its expected value.
    InvalidMagic,
    /// A discriminant byte maps to no known sub-encoding where one is
    /// structurally required.
    ValueNotUnderstood,
}

/// Maps a decoding result onto its mathematical view, so that a decoder's
/// contract can equate the whole result with a specification-level parse.
pub open spec fn view_res<T: View, E>(r: Result<T, E>) -> Result<T::V, E> {
    match r {
        Ok(v) => Ok(v@),
        Err(e) => Err(e),
    }
}

} // verus!
