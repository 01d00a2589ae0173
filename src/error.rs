//! Error types.
use vstd::prelude::*;

verus! {

/// The errors that the library reports.
#[derive(Clone, Debug, PartialEq, Eq)]
pub enum Error {
    /// A path that does not exist, is a directory, or has no file name.
    NotFound,
    /// Image data that could not be decoded.
    Decode,
    /// Image data that could not be written.
    Encode,
    /// A vision primitive (contour tracing, matching, estimation) failed.
    VisionPrimitive,
    /// A frame whose size or channel count differs from the accumulator's.
    FrameMismatch,
    /// More frames than the accumulator can count.
    TooManyFrames,
    /// A pipeline stage ended without any surviving entry.
    StageExhausted,
    /// Any other failure, described in words.
    Other(String),
}

/// Shorthand result type.
pub type Result<T> = core::result::Result<T, Error>;

} // verus!
