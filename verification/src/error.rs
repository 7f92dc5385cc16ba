use vstd::prelude::*;

verus! {

/// The failure modes of a thumbnail run.
///
/// Every fallible step of the pipeline reports one of these: opening or
/// writing a file, parsing the container, finding a video stream or a frame,
/// converting pixel formats, or encoding the output image.
#[derive(Clone, Copy, Debug, PartialEq, Eq, Structural)]
pub enum ThumbError {
    /// The source file could not be opened or the output could not be written.
    Io,
    /// The container could not be parsed.
    Format,
    /// No video stream exists in the container.
    NotFound,
    /// The scaler could not be built or refused the frame's formats.
    Conversion,
    /// The frame handed to image assembly is not packed RGB24.
    FormatMismatch,
    /// The image encoder failed.
    Encode,
}

} // verus!
