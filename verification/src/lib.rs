//! Single-frame video thumbnail extraction, verified.
//!
//! The pipeline is seek -> demux -> decode -> scale -> assemble -> encode.
//! This crate holds the decisions and computations of that pipeline: the
//! seek-target arithmetic, the output-dimension law, the frame-search state
//! machine over decoder outcomes, the stride-aware assembly of a packed RGB
//! pixel grid, and the JPEG encoding of that grid. The surrounding process
//! (opening the container, pulling packets, driving the decoder, writing the
//! output file) hands plain values in and takes plain values back.

pub mod decode;
pub mod dims;
pub mod error;
pub mod jpeg;
pub mod raster;
pub mod seek;
