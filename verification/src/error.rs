//! The ways in which a run of the pipeline can fail.

use vstd::prelude::*;

verus! {

/// The stage at which the pipeline gave up.
#[derive(Debug, Clone, Copy, PartialEq, Eq)]
pub enum PipelineError {
    /// The payload is not canonical Base64: a character outside the
    /// alphabet, wrong padding or a truncated last group.
    TransportDecode,
    /// The bytes are not an image in any supported format, are corrupt, or
    /// describe an image without pixels.
    ImageDecode,
    /// The buffer could not be written as a PNG, the PNG is too long to
    /// be carried as text on this machine, or the channel values that came
    /// back from smoothing do not fill the buffer.
    ImageEncode,
}

} // verus!
