//! Fixed-point scalars: `i64` values read as multiples of `1 / FX_ONE`.

use vstd::prelude::*;

verus! {

/// The fixed-point scale: one whole unit. Scalars carry 16 fractional bits.
pub const FX_ONE: i64 = 65536;

/// Whether a mathematical integer fits the scalar storage type.
pub open spec fn fits_i64(v: int) -> bool {
    i64::MIN <= v <= i64::MAX
}

/// The product of two fixed-point scalars: the exact integer product, scaled
/// back down by one factor of `FX_ONE`, rounded toward zero.
pub open spec fn fx_mul_spec(a: int, b: int) -> int {
    if a * b >= 0 {
        (a * b) / (FX_ONE as int)
    } else {
        -((-(a * b)) / (FX_ONE as int))
    }
}

/// Fixed-point multiplication. The wide product always fits an `i128`; the
/// caller must ensure the scaled-down result fits an `i64`.
pub fn fx_mul(a: i64, b: i64) -> (r: i64)
    requires
        fits_i64(fx_mul_spec(a as int, b as int)),
    ensures
        r as int == fx_mul_spec(a as int, b as int),
{
    proof {
        assert((a as int) * (b as int) <= 0x40000000000000000000000000000000
            && -0x40000000000000000000000000000000 <= (a as int) * (b as int)) by (nonlinear_arith)
            requires
                i64::MIN <= a <= i64::MAX,
                i64::MIN <= b <= i64::MAX;
    }
    let wide: i128 = (a as i128) * (b as i128);
    let q: i128 = match wide.checked_div(65536) {
        Some(q) => q,
        None => {
            proof {
                assert(false);
            }
            0
        },
    };
    q as i64
}

} // verus!
