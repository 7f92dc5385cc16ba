use vstd::prelude::*;

use crate::error::ThumbError;

verus! {

/// The derived output height: `native_h * size / native_w`, rounded to the
/// nearest integer (halves round up). The output width is always `size`
/// itself, so only the height needs deriving.
pub open spec fn spec_scaled_height(native_w: int, native_h: int, size: int) -> int {
    (2 * native_h * size + native_w) / (2 * native_w)
}

/// The dimensions the scaler is built with: output width is the requested
/// size, output height preserves the source's aspect ratio.
#[derive(Clone, Copy, Debug, PartialEq, Eq, Structural)]
pub struct ScaleDims {
    pub out_w: u32,
    pub out_h: u32,
}

impl ScaleDims {
    pub open spec fn matches(self, native_w: int, native_h: int, size: int) -> bool {
        &&& self.out_w == size
        &&& self.out_h == spec_scaled_height(native_w, native_h, size)
    }
}

/// Computes the scaler's output dimensions from the source frame's native
/// dimensions and the requested output width.
///
/// Fails with `Conversion` when the native width is zero (no aspect ratio
/// exists) or when the derived height does not fit in `u32`.
pub fn scale_dims(native_w: u32, native_h: u32, size: u32) -> (r: Result<ScaleDims, ThumbError>)
    ensures
        match r {
            Ok(dims) => native_w > 0 && dims.matches(native_w as int, native_h as int, size as int),
            Err(e) => {
                &&& e == ThumbError::Conversion
                &&& (native_w == 0 || spec_scaled_height(
                    native_w as int,
                    native_h as int,
                    size as int,
                ) > u32::MAX)
            },
        },
{
    if native_w == 0 {
        return Err(ThumbError::Conversion);
    }
    proof {
        assert((native_h as int) * (size as int) <= 0xffff_ffff * 0xffff_ffff)
            by (nonlinear_arith)
            requires
                0 <= native_h as int <= 0xffff_ffff,
                0 <= size as int <= 0xffff_ffff,
        ;
        assert(2 * (native_h as int) * (size as int) == 2 * ((native_h as int) * (size as int)))
            by (nonlinear_arith);
    }
    let hs: u128 = (native_h as u128) * (size as u128);
    let num: u128 = 2 * hs + (native_w as u128);
    let den: u128 = 2 * (native_w as u128);
    let q: u128 = num / den;
    if q > u32::MAX as u128 {
        Err(ThumbError::Conversion)
    } else {
        Ok(ScaleDims { out_w: size, out_h: q as u32 })
    }
}

} // verus!
