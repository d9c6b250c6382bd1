//! The ways in which processing one image can fail.

use vstd::prelude::*;

verus! {

/// Why one image could not be processed.  None of these ends a batch: the
/// failure is recorded and the next image is taken up.
#[derive(Clone, Copy, Debug, PartialEq, Eq, Structural)]
pub enum ErrorKind {
    /// The source could not be read or decoded, or its format is not supported.
    DecodeError,
    /// The source has no pixels: its width or its height is zero.
    InvalidDimensions,
    /// The borders leave no interior on the canvas.
    InvalidConfig,
    /// The scaled image does not lie within the canvas.
    CompositionError,
    /// The canvas could not be encoded or written.
    EncodeError,
    /// The canvas or a buffer of the resampler cannot be allocated on this
    /// machine, or a side of the source or of the scaled image has 2^23
    /// pixels or more, where the resampler's arithmetic gives out.
    TooLarge,
}

impl ErrorKind {
    /// What [`ErrorKind::message`] says of each kind.
    pub open spec fn message_of(self) -> Seq<char> {
        match self {
            ErrorKind::DecodeError => "the source could not be decoded"@,
            ErrorKind::InvalidDimensions => "the source has no pixels"@,
            ErrorKind::InvalidConfig => "the borders leave no interior"@,
            ErrorKind::CompositionError => "the scaled image does not fit the canvas"@,
            ErrorKind::EncodeError => "the output could not be encoded or written"@,
            ErrorKind::TooLarge => "the image is too large to process"@,
        }
    }

    /// A line for a person to read.
    pub fn message(&self) -> (text: &'static str)
        ensures
            text@ == self.message_of(),
    {
        match self {
            ErrorKind::DecodeError => "the source could not be decoded",
            ErrorKind::InvalidDimensions => "the source has no pixels",
            ErrorKind::InvalidConfig => "the borders leave no interior",
            ErrorKind::CompositionError => "the scaled image does not fit the canvas",
            ErrorKind::EncodeError => "the output could not be encoded or written",
            ErrorKind::TooLarge => "the image is too large to process",
        }
    }
}

} // verus!
