use vstd::prelude::*;

use vstd::arithmetic::div_mod::{
    lemma_div_pos_is_pos, lemma_fundamental_div_mod, lemma_fundamental_div_mod_converse_div,
    lemma_fundamental_div_mod_converse_mod, lemma_mod_division_less_than_divisor,
    lemma_multiply_divide_lt,
};
use vstd::arithmetic::mul::lemma_mul_inequality;

verus! {

/// The pixel format of a frame, as far as image assembly cares: either the
/// packed RGB24 layout the scaler was asked for, or anything else.
#[derive(Clone, Copy, Debug, PartialEq, Eq, Structural)]
pub enum PixelKind {
    /// Three 8-bit channels, contiguous per pixel.
    Rgb24,
    /// Any other pixel format.
    Other,
}

/// A raw frame as the scaler hands it over: dimensions, pixel format, and a
/// byte buffer in which each row occupies `stride` bytes — at least
/// `width * 3` of payload, the rest alignment padding.
pub struct RgbFrame {
    pub kind: PixelKind,
    pub width: u32,
    pub height: u32,
    pub stride: usize,
    pub data: Vec<u8>,
}

impl RgbFrame {
    /// Well-formed: every row's payload fits inside its stride, and the
    /// buffer covers all `height` rows.
    pub open spec fn wf(self) -> bool {
        &&& self.width * 3 <= self.stride
        &&& self.height * self.stride <= self.data@.len()
    }

    /// Builds a frame after checking that the buffer really covers `height`
    /// rows of `stride` bytes with at least `width * 3` bytes of payload per
    /// row; hands the buffer back unchanged when it does not.
    pub fn new(kind: PixelKind, width: u32, height: u32, stride: usize, data: Vec<u8>) -> (r:
        Result<RgbFrame, Vec<u8>>)
        ensures
            match r {
                Ok(f) => {
                    &&& f == (RgbFrame { kind, width, height, stride, data })
                    &&& f.wf()
                },
                Err(d) => {
                    &&& d == data
                    &&& !(RgbFrame { kind, width, height, stride, data }).wf()
                },
            },
    {
        let w3: u64 = (width as u64) * 3;
        if w3 > (stride as u64) {
            return Err(data);
        }
        proof {
            assert((height as int) * (stride as int) <= 0xffff_ffff * 0xffff_ffff_ffff_ffff)
                by (nonlinear_arith)
                requires
                    0 <= height as int <= 0xffff_ffff,
                    0 <= stride as int <= 0xffff_ffff_ffff_ffff,
            ;
        }
        let need: u128 = (height as u128) * (stride as u128);
        if need > (data.len() as u128) {
            return Err(data);
        }
        Ok(RgbFrame { kind, width, height, stride, data })
    }
}

/// Byte `j` of row `y` of a buffer whose rows are `stride` bytes apart.
pub open spec fn row_byte(data: Seq<u8>, stride: int, y: int, j: int) -> u8 {
    data[y * stride + j]
}

/// The packed pixel grid read out of a strided buffer: row `y` of the result
/// is the first `width * 3` bytes of row `y` of the buffer, with the padding
/// bytes after them left behind.
pub open spec fn spec_packed(data: Seq<u8>, width: int, height: int, stride: int) -> Seq<u8> {
    Seq::new(
        (height * (width * 3)) as nat,
        |i: int| row_byte(data, stride, i / (width * 3), i % (width * 3)),
    )
}

/// Splits a flat index `i` of a grid of `h` rows of `m` bytes into its row
/// `i / m` and column `i % m`.
proof fn lemma_flat_index(i: int, m: int, h: int)
    requires
        0 < m,
        0 <= i < h * m,
    ensures
        0 <= i / m < h,
        0 <= i % m < m,
        i == i / m * m + i % m,
{
    lemma_div_pos_is_pos(i, m);
    assert(h * m == m * h) by (nonlinear_arith);
    lemma_multiply_divide_lt(i, m, h);
    lemma_mod_division_less_than_divisor(i, m);
    lemma_fundamental_div_mod(i, m);
}

/// The packed grid reads only each row's payload, never its padding: two
/// buffers that agree on the first `width * 3` bytes of every row yield the
/// same packed pixels, whatever their strides hold beyond that.
pub proof fn lemma_padding_never_leaks(
    d1: Seq<u8>,
    s1: int,
    d2: Seq<u8>,
    s2: int,
    width: int,
    height: int,
)
    requires
        0 <= width,
        0 <= height,
        forall|y: int, j: int|
            0 <= y < height && 0 <= j < width * 3 ==> #[trigger] row_byte(d1, s1, y, j)
                == row_byte(d2, s2, y, j),
    ensures
        spec_packed(d1, width, height, s1) == spec_packed(d2, width, height, s2),
{
    let m = width * 3;
    let p1 = spec_packed(d1, width, height, s1);
    let p2 = spec_packed(d2, width, height, s2);
    assert forall|i: int| 0 <= i < height * m implies p1[i] == p2[i] by {
        lemma_flat_index(i, m, height);
        assert(row_byte(d1, s1, i / m, i % m) == row_byte(d2, s2, i / m, i % m));
    }
    assert(p1 =~= p2);
}

/// Reads the frame's pixel grid out of its strided buffer into a packed
/// vector: `width * 3` bytes per row, taken from the start of each
/// `stride`-byte row, so alignment padding never reaches the output.
pub fn packed_pixels(frame: &RgbFrame) -> (out: Vec<u8>)
    requires
        frame.wf(),
    ensures
        out@.len() == frame.height * (frame.width * 3),
        out@ == spec_packed(
            frame.data@,
            frame.width as int,
            frame.height as int,
            frame.stride as int,
        ),
{
    let height = frame.height as usize;
    let w3: usize = (frame.width as usize) * 3;
    let buf_len: usize = frame.data.len();
    let mut out: Vec<u8> = Vec::new();
    let mut y: usize = 0;
    while y < height
        invariant
            frame.wf(),
            buf_len == frame.data@.len(),
            height == frame.height,
            w3 == frame.width * 3,
            y <= height,
            out@.len() == y * w3,
            forall|k: int|
                0 <= k < out@.len() ==> #[trigger] out@[k] == row_byte(
                    frame.data@,
                    frame.stride as int,
                    k / (w3 as int),
                    k % (w3 as int),
                ),
        decreases height - y,
    {
        proof {
            lemma_mul_inequality(y + 1, height as int, frame.stride as int);
            assert((y + 1) * (frame.stride as int) == y * (frame.stride as int) + (
            frame.stride as int)) by (nonlinear_arith);
            assert(0 <= y * (frame.stride as int)) by (nonlinear_arith)
                requires
                    0 <= y as int,
                    0 <= frame.stride as int,
            ;
        }
        let base: usize = y * frame.stride;
        let mut j: usize = 0;
        while j < w3
            invariant
                frame.wf(),
                buf_len == frame.data@.len(),
                height == frame.height,
                w3 == frame.width * 3,
                y < height,
                j <= w3,
                base == y * frame.stride,
                base + frame.stride <= frame.data@.len(),
                out@.len() == y * w3 + j,
                forall|k: int|
                    0 <= k < out@.len() ==> #[trigger] out@[k] == row_byte(
                        frame.data@,
                        frame.stride as int,
                        k / (w3 as int),
                        k % (w3 as int),
                    ),
            decreases w3 - j,
        {
            let b = frame.data[base + j];
            proof {
                lemma_fundamental_div_mod_converse_div(
                    y * (w3 as int) + j,
                    w3 as int,
                    y as int,
                    j as int,
                );
                lemma_fundamental_div_mod_converse_mod(
                    y * (w3 as int) + j,
                    w3 as int,
                    y as int,
                    j as int,
                );
            }
            out.push(b);
            j = j + 1;
        }
        proof {
            assert((y + 1) * (w3 as int) == y * (w3 as int) + (w3 as int)) by (nonlinear_arith);
        }
        y = y + 1;
    }
    proof {
        let m = (frame.width as int) * 3;
        let p = spec_packed(
            frame.data@,
            frame.width as int,
            frame.height as int,
            frame.stride as int,
        );
        assert forall|i: int| 0 <= i < out@.len() implies out@[i] == p[i] by {
            assert(out@[i] == row_byte(frame.data@, frame.stride as int, i / m, i % m));
        }
        assert(out@ =~= p);
    }
    out
}

} // verus!
