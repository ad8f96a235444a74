//! The amplitude-modulation bridge.
//!
//! The AM law is `carrier * (1 + modulator * depth)`. In the fixed-point
//! format both `modulator` and `depth` carry a factor of `SCALE`, so the
//! exact product is `carrier * (SCALE*SCALE + modulator*depth)` over a fixed
//! denominator of `SCALE*SCALE`; the bridge returns that quotient truncated
//! toward zero. The bridge holds no state.

use vstd::arithmetic::div_mod::lemma_fundamental_div_mod;
use vstd::prelude::*;

use crate::fixed::{div_trunc, is_level, SCALE};

verus! {

/// `SCALE * SCALE`: the denominator of the exact AM product.
pub const AM_DENOM: i64 = 0x1_0000_0000;

/// Largest magnitude the bridge accepts for each operand; a machine limit
/// only, far beyond any value the voice chain produces.
pub const AM_IN_MAX: i64 = 0x4000_0000;

/// The exact AM product before the fixed-point denominator is divided out:
/// `carrier * (SCALE^2 + modulator * depth)`. The law is linear in `depth`
/// for a fixed carrier and modulator (`lemma_am_linear_in_depth`).
pub open spec fn am_exact(carrier: int, modulator: int, depth: int) -> int {
    carrier * (AM_DENOM + modulator * depth)
}

/// What the bridge returns: the exact product with the fixed-point
/// denominator divided out, truncated toward zero.
pub open spec fn am_value(carrier: int, modulator: int, depth: int) -> int {
    div_trunc(am_exact(carrier, modulator, depth), AM_DENOM as int)
}

/// Zero depth is exactly a no-op: the quotient collapses to the carrier.
pub proof fn lemma_am_zero_depth(carrier: int, modulator: int)
    ensures
        am_value(carrier, modulator, 0) == carrier,
{
    assert(am_exact(carrier, modulator, 0) == carrier * AM_DENOM) by (nonlinear_arith);
    if carrier >= 0 {
        assert(carrier * AM_DENOM >= 0) by (nonlinear_arith)
            requires
                carrier >= 0,
        ;
        assert((carrier * AM_DENOM) / (AM_DENOM as int) == carrier) by (nonlinear_arith);
    } else {
        assert(-(carrier * AM_DENOM) == (-carrier) * AM_DENOM) by (nonlinear_arith);
        assert(((-carrier) * AM_DENOM) / (AM_DENOM as int) == -carrier) by (nonlinear_arith);
    }
}

/// The AM law is linear in depth: modulating with the sum of two depths is
/// the sum of the two modulated signals, minus the carrier that both terms
/// share (`am_exact(c, m, 0)` is `c` scaled by the denominator).
pub proof fn lemma_am_linear_in_depth(carrier: int, modulator: int, d1: int, d2: int)
    by (nonlinear_arith)
    ensures
        am_exact(carrier, modulator, d1 + d2) + am_exact(carrier, modulator, 0) == am_exact(
            carrier,
            modulator,
            d1,
        ) + am_exact(carrier, modulator, d2),
{
}

/// The executable bridge realizes the exact law up to one quantization step
/// of the fixed denominator.
pub proof fn lemma_am_quantization(carrier: int, modulator: int, depth: int)
    ensures
        am_exact(carrier, modulator, depth) - AM_DENOM < am_value(carrier, modulator, depth) * (
        AM_DENOM as int) <= am_exact(carrier, modulator, depth) + AM_DENOM - 1,
{
    let a = am_exact(carrier, modulator, depth);
    let b = AM_DENOM as int;
    if a >= 0 {
        lemma_fundamental_div_mod(a, b);
        assert(am_value(carrier, modulator, depth) * b == b * (a / b)) by (nonlinear_arith)
            requires
                am_value(carrier, modulator, depth) == a / b,
        ;
    } else {
        lemma_fundamental_div_mod(-a, b);
        assert(am_value(carrier, modulator, depth) * b == -(b * ((-a) / b))) by (nonlinear_arith)
            requires
                am_value(carrier, modulator, depth) == -((-a) / b),
        ;
    }
}

/// The stateless object that combines a carrier and a modulator sample.
pub struct AmBridge;

impl AmBridge {
    pub fn new() -> (b: Self)
        ensures
            b == AmBridge,
    {
        AmBridge
    }

    /// Combines one carrier and one modulator sample at the given depth.
    /// Depth is typically a level in `[0, SCALE]`, but any magnitude up to
    /// the machine limit is defined; callers clamp.
    pub fn process(&self, carrier: i64, modulator: i64, depth: i64) -> (r: i64)
        requires
            -AM_IN_MAX <= carrier <= AM_IN_MAX,
            -AM_IN_MAX <= modulator <= AM_IN_MAX,
            -AM_IN_MAX <= depth <= AM_IN_MAX,
        ensures
            r == am_value(carrier as int, modulator as int, depth as int),
            depth == 0 ==> r == carrier,
            (-4 * SCALE <= modulator <= 4 * SCALE && is_level(depth as int) && -4 * SCALE
                <= carrier <= 4 * SCALE) ==> -20 * SCALE <= r <= 20 * SCALE,
    {
        let c: i128 = carrier as i128;
        let m: i128 = modulator as i128;
        let d: i128 = depth as i128;
        assert(-0x1000_0000_0000_0000 <= m * d <= 0x1000_0000_0000_0000) by (nonlinear_arith)
            requires
                -0x4000_0000 <= m <= 0x4000_0000,
                -0x4000_0000 <= d <= 0x4000_0000,
        ;
        let inner: i128 = (AM_DENOM as i128) + m * d;
        proof {
            crate::fixed::lemma_mul_abs_bound(
                c as int,
                inner as int,
                0x4000_0000,
                0x2000_0000_0000_0000,
            );
        }
        let wide: i128 = c * inner;
        assert(-0x800_0000_0000_0000_0000_0000 <= wide <= 0x800_0000_0000_0000_0000_0000);
        let r: i64 = if wide >= 0 {
            let q: u128 = (wide as u128) / (AM_DENOM as u128);
            assert(q <= 0x800_0000_0000_0000) by (nonlinear_arith)
                requires
                    q == (wide as u128) / (0x1_0000_0000 as u128),
                    wide as u128 <= 0x800_0000_0000_0000_0000_0000,
            ;
            q as i64
        } else {
            let q: u128 = ((-wide) as u128) / (AM_DENOM as u128);
            assert(q <= 0x800_0000_0000_0000) by (nonlinear_arith)
                requires
                    q == ((-wide) as u128) / (0x1_0000_0000 as u128),
                    (-wide) as u128 <= 0x800_0000_0000_0000_0000_0000,
            ;
            -(q as i64)
        };
        proof {
            if depth == 0 {
                lemma_am_zero_depth(carrier as int, modulator as int);
            }
            if -4 * SCALE <= modulator <= 4 * SCALE && is_level(depth as int) && -4 * SCALE
                <= carrier <= 4 * SCALE {
                lemma_am_moderate(carrier as int, modulator as int, depth as int);
            }
        }
        r
    }
}

/// With a level depth and a modulator within the filter headroom, the bridge
/// at most quintuples the carrier's magnitude.
proof fn lemma_am_moderate(carrier: int, modulator: int, depth: int)
    requires
        -4 * SCALE <= carrier <= 4 * SCALE,
        -4 * SCALE <= modulator <= 4 * SCALE,
        is_level(depth),
    ensures
        -20 * SCALE <= am_value(carrier, modulator, depth) <= 20 * SCALE,
{
    assert(-3 * AM_DENOM <= AM_DENOM + modulator * depth <= 5 * AM_DENOM) by (nonlinear_arith)
        requires
            -4 * SCALE <= modulator <= 4 * SCALE,
            0 <= depth <= SCALE,
    ;
    let inner = AM_DENOM + modulator * depth;
    assert(-20 * SCALE * AM_DENOM <= carrier * inner <= 20 * SCALE * AM_DENOM)
        by (nonlinear_arith)
        requires
            -4 * SCALE <= carrier <= 4 * SCALE,
            -5 * AM_DENOM <= inner <= 5 * AM_DENOM,
    ;
    let a = am_exact(carrier, modulator, depth);
    if a >= 0 {
        assert(0 <= a / (AM_DENOM as int) <= 20 * SCALE) by (nonlinear_arith)
            requires
                0 <= a <= 20 * SCALE * AM_DENOM,
        ;
    } else {
        assert(0 <= (-a) / (AM_DENOM as int) <= 20 * SCALE) by (nonlinear_arith)
            requires
                0 <= -a <= 20 * SCALE * AM_DENOM,
        ;
    }
}

} // verus!
