//! Error taxonomy of the capture core.
//!
//! Construction problems surface synchronously before an encoder ever joins
//! a set; per-frame encode failures are isolated and recoverable; readback
//! failures are fatal to one frame only; finalize failures are warnings that
//! never block shutdown.

use vstd::prelude::*;

verus! {

/// Invalid encoder setup, surfaced at construction time, before the encoder
/// enters an encoder set.
#[derive(Clone, Copy, Debug, PartialEq, Eq, Structural)]
pub enum ConstructionError {
    /// The codec backend could not be initialised.
    CodecUnavailable,
    /// Writing the container's opening structures failed.
    ContainerStart,
    /// A configuration parameter was outside the accepted range.
    InvalidParameter,
}

/// A recoverable per-frame failure: it never halts the capture and never
/// affects sibling encoders of the same set.
#[derive(Clone, Copy, Debug, PartialEq, Eq, Structural)]
pub enum EncodeError {
    /// The delivered image does not have the dimensions this encoder was
    /// built for.
    DimensionMismatch,
    /// The delivered image has dimensions the codec cannot accept.
    UnsupportedDimensions,
    /// The bitstream encoder rejected or failed on the frame.
    Codec,
    /// Writing the frame into the container failed.
    Container,
    /// The encoded bitstream did not carry the expected parameter sets.
    MalformedBitstream,
    /// The encoder's frame index space is used up.
    IndexSpaceExhausted,
}

/// A device-level condition during the blocking host mapping: fatal for that
/// frame only, the capture stays active.
#[derive(Clone, Copy, Debug, PartialEq, Eq, Structural)]
pub enum ReadbackError {
    /// The device reported an error while mapping the transfer buffer.
    MapFailed,
}

/// A non-propagating failure during finalize. It is reported to the caller
/// for logging and never blocks shutdown.
#[derive(Clone, Copy, Debug, PartialEq, Eq, Structural)]
pub enum FinalizeWarning {
    /// Writing the container's trailing index structures failed.
    ContainerTrailer,
}

} // verus!
