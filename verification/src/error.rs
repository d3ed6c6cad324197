//! The ways in which a request can fail.

use vstd::prelude::*;

verus! {

/// Why no output was produced. A failed request leaves no partial output.
#[derive(Debug, Clone, Copy, PartialEq, Eq, Structural)]
pub enum LeafError {
    /// The input bytes are no image in any supported format, or are damaged.
    Decode,
    /// The output could not be serialized, or the text does not fit a code.
    Encode,
    /// A threshold pair that the detector cannot be given.
    InvalidParameter,
    /// A buffer that a stage cannot hold or index.
    Internal,
}

/// An outcome with its bytes taken as a sequence, as the contracts speak of it.
pub open spec fn outcome(r: Result<Vec<u8>, LeafError>) -> Result<Seq<u8>, LeafError> {
    match r {
        Ok(bytes) => Ok(bytes@),
        Err(e) => Err(e),
    }
}

} // verus!
