use vstd::prelude::*;

use vstd::arithmetic::div_mod::{
    lemma_div_is_ordered, lemma_div_multiples_vanish, lemma_fundamental_div_mod,
};
use vstd::arithmetic::mul::lemma_mul_inequality;

verus! {

/// Denominator of the global time base: timestamps and durations are counted
/// in units of one `TIME_BASE_DEN`-th of a second.
pub const TIME_BASE_DEN: i64 = 1_000_000;

/// The seek target for a position `percent` percent into a stream of the
/// given duration, both in global time-base units: the exact position
/// `duration * percent / 100`, snapped down to a whole second so that the
/// following backward-biased seek starts from a clean boundary.
pub open spec fn spec_seek_target(duration: int, percent: int) -> int {
    duration * percent / (100int * (TIME_BASE_DEN as int)) * (TIME_BASE_DEN as int)
}

/// Computes the timestamp to seek to before decoding: `percent` percent of
/// `duration`, rounded down to a whole second of the global time base.
///
/// The target never lies before the start of the stream nor after its end,
/// so a backward-biased seek to it cannot fail for being out of range, even
/// at `percent == 100`.
pub fn seek_target(duration: i64, percent: u32) -> (t: i64)
    requires
        0 <= duration,
        percent <= 100,
    ensures
        t == spec_seek_target(duration as int, percent as int),
        0 <= t <= duration,
{
    proof {
        assert(0 <= (duration as int) * (percent as int) <= 0x7fff_ffff_ffff_ffff * 100)
            by (nonlinear_arith)
            requires
                0 <= duration as int <= 0x7fff_ffff_ffff_ffff,
                0 <= percent as int <= 100,
        ;
    }
    let num: i128 = (duration as i128) * (percent as i128);
    let secs: i128 = num / 100_000_000;
    let t128: i128 = secs * 1_000_000;
    proof {
        let d = duration as int;
        let p = percent as int;
        lemma_mul_inequality(p, 100, d);
        assert(d * p == p * d) by (nonlinear_arith);
        assert(d * 100 == 100 * d) by (nonlinear_arith);
        lemma_div_is_ordered(d * p, d * 100, 100_000_000);
        assert(d * 100 / 100_000_000 == d / 1_000_000) by {
            lemma_strip_common_factor(d, 100, 1_000_000);
        }
        assert(0 <= d * p) by (nonlinear_arith)
            requires
                0 <= d,
                0 <= p,
        ;
        lemma_div_is_ordered(0, d * p, 100_000_000);
        lemma_mul_inequality(d * p / 100_000_000, d / 1_000_000, 1_000_000);
        lemma_fundamental_div_mod(d, 1_000_000);
        assert(d / 1_000_000 * 1_000_000 <= d);
    }
    t128 as i64
}

/// Dividing by `b * c` in two steps: `a / (b * c) == (a / b) / c`, and when
/// `a` is itself `b` times some `d`, the first step just strips the factor.
/// Here: `(d * 100) / 100_000_000 == d / 1_000_000`.
proof fn lemma_strip_common_factor(d: int, b: int, c: int)
    requires
        0 <= d,
        0 < b,
        0 < c,
    ensures
        d * b / (b * c) == d / c,
{
    vstd::arithmetic::div_mod::lemma_div_denominator(d * b, b, c);
    assert(d * b == b * d) by (nonlinear_arith);
    lemma_div_multiples_vanish(d, b);
}

/// Determinism of the planning stage: identical duration and percentage give
/// the identical seek target on every run. The target is a function of its
/// arguments alone, so repeated runs on an unmodified input seek to the same
/// position.
pub proof fn lemma_seek_target_deterministic(d1: int, p1: int, d2: int, p2: int)
    requires
        d1 == d2,
        p1 == p2,
    ensures
        spec_seek_target(d1, p1) == spec_seek_target(d2, p2),
{
}

} // verus!
