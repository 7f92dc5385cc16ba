use vstd::prelude::*;

use crate::error::ThumbError;
use crate::raster::{lemma_padding_never_leaks, packed_pixels, row_byte, spec_packed, PixelKind,
    RgbFrame};

verus! {

/// The JPEG byte stream that encoding a packed RGB24 pixel grid of the given
/// dimensions at the given quality produces. The encoder is deterministic:
/// the bytes depend on the pixels, the dimensions and the quality alone.
pub uninterp spec fn jpeg_encoding(pixels: Seq<u8>, width: int, height: int, quality: int) -> Seq<
    u8,
>;

#[verifier::external_type_specification]
#[verifier::external_body]
pub struct ExImageError(image::ImageError);

/// Relies on `image::codecs::jpeg::JpegEncoder`: `new_with_quality` builds an
/// encoder over a fresh in-memory buffer (clamping the quality into 1..=100
/// itself), and `encode` with `ExtendedColorType::Rgb8` writes the JPEG
/// stream for the given packed pixels into that buffer. Writing into a
/// `Vec<u8>` cannot fail, so `encode` succeeds exactly when both dimensions
/// are nonzero and fit in `u16`; it panics only when the buffer length does
/// not equal `width * height * 3`, which the precondition rules out. The
/// produced bytes are a function of the pixels, dimensions and quality alone.
#[verifier::external_body]
fn encode_rgb24(pixels: &Vec<u8>, width: u32, height: u32, quality: u8) -> (r: Result<
    Vec<u8>,
    image::ImageError,
>)
    requires
        pixels@.len() == width * height * 3,
    ensures
        r is Ok <==> (1 <= width <= 0xffff && 1 <= height <= 0xffff),
        r matches Ok(bytes) ==> bytes@ == jpeg_encoding(
            pixels@,
            width as int,
            height as int,
            quality as int,
        ),
{
    let mut buf: Vec<u8> = Vec::new();
    let mut encoder = image::codecs::jpeg::JpegEncoder::new_with_quality(&mut buf, quality);
    match encoder.encode(pixels.as_slice(), width, height, image::ExtendedColorType::Rgb8) {
        Ok(()) => Ok(buf),
        Err(e) => Err(e),
    }
}

/// Assembles the frame's pixel grid — honouring its row stride, so padding
/// bytes never reach a pixel — and encodes it as a JPEG byte stream at the
/// given quality.
///
/// Fails with `FormatMismatch` when the frame is not packed RGB24, and with
/// `Encode` when the encoder refuses the dimensions: a side of zero pixels
/// or one beyond 65535. On success the bytes are exactly the encoding of the
/// frame's packed pixel grid.
pub fn render_jpeg(frame: &RgbFrame, quality: u8) -> (r: Result<Vec<u8>, ThumbError>)
    requires
        frame.wf(),
    ensures
        match r {
            Ok(bytes) => {
                &&& frame.kind is Rgb24
                &&& 1 <= frame.width <= 0xffff
                &&& 1 <= frame.height <= 0xffff
                &&& bytes@ == jpeg_encoding(
                    spec_packed(
                        frame.data@,
                        frame.width as int,
                        frame.height as int,
                        frame.stride as int,
                    ),
                    frame.width as int,
                    frame.height as int,
                    quality as int,
                )
            },
            Err(e) => {
                &&& (e == ThumbError::FormatMismatch <==> !(frame.kind is Rgb24))
                &&& (e == ThumbError::Encode <==> (frame.kind is Rgb24 && !(1 <= frame.width
                    <= 0xffff && 1 <= frame.height <= 0xffff)))
            },
        },
        r is Ok <==> (frame.kind is Rgb24 && 1 <= frame.width <= 0xffff && 1 <= frame.height
            <= 0xffff),
{
    if !matches!(frame.kind, PixelKind::Rgb24) {
        return Err(ThumbError::FormatMismatch);
    }
    let pixels = packed_pixels(frame);
    proof {
        assert((frame.height as int) * ((frame.width as int) * 3) == (frame.width as int) * (
        frame.height as int) * 3) by (nonlinear_arith);
        assert((frame.width as int) * (frame.height as int) * 3 == (frame.width as int) * ((
        frame.height as int) * 3)) by (nonlinear_arith);
    }
    match encode_rgb24(&pixels, frame.width, frame.height, quality) {
        Ok(bytes) => Ok(bytes),
        Err(_) => Err(ThumbError::Encode),
    }
}

/// Repeated runs on the same input give the same output: two frames of the
/// same dimensions whose rows carry the same payload bytes — whatever their
/// strides and padding — have a pixel-identical packed grid and encode to
/// the identical JPEG stream at the same quality.
pub proof fn lemma_same_pixels_same_jpeg(f1: RgbFrame, f2: RgbFrame, quality: int)
    requires
        f1.width == f2.width,
        f1.height == f2.height,
        forall|y: int, j: int|
            0 <= y < f1.height && 0 <= j < f1.width * 3 ==> #[trigger] row_byte(
                f1.data@,
                f1.stride as int,
                y,
                j,
            ) == row_byte(f2.data@, f2.stride as int, y, j),
    ensures
        spec_packed(f1.data@, f1.width as int, f1.height as int, f1.stride as int) == spec_packed(
            f2.data@,
            f2.width as int,
            f2.height as int,
            f2.stride as int,
        ),
        jpeg_encoding(
            spec_packed(f1.data@, f1.width as int, f1.height as int, f1.stride as int),
            f1.width as int,
            f1.height as int,
            quality,
        ) == jpeg_encoding(
            spec_packed(f2.data@, f2.width as int, f2.height as int, f2.stride as int),
            f2.width as int,
            f2.height as int,
            quality,
        ),
{
    lemma_padding_never_leaks(
        f1.data@,
        f1.stride as int,
        f2.data@,
        f2.stride as int,
        f1.width as int,
        f1.height as int,
    );
}

} // verus!
