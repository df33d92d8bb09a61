use vstd::prelude::*;

verus! {

/// Number of fixed-point steps in one whole unit: values, ease parameters,
/// sub-tick times and sub-pixel positions are all stored in millionths.
pub const UNIT: i64 = 1_000_000;

/// The fraction `n / d` clamped to `[0, 1]`, as a fixed-point number rounded
/// down. A zero divisor saturates: a positive numerator gives one, anything
/// else gives zero.
pub open spec fn frac01(n: int, d: int) -> int {
    let (n, d) = if d < 0 { (-n, -d) } else { (n, d) };
    if n <= 0 {
        0
    } else if n >= d {
        UNIT as int
    } else {
        n * (UNIT as int) / d
    }
}

/// Every result of `frac01` is a valid ease parameter.
pub proof fn lemma_frac01_bounded(n: int, d: int)
    ensures
        0 <= frac01(n, d) <= UNIT,
{
    let (m, e) = if d < 0 { (-n, -d) } else { (n, d) };
    if 0 < m && m < e {
        assert(0 <= m * (UNIT as int) / e <= UNIT) by (nonlinear_arith)
            requires
                0 < m < e,
        ;
    }
}

/// Computes `frac01(n, d)`.
pub fn ratio_clamped(n: i128, d: i128) -> (r: i64)
    requires
        -0x1_0000_0000_0000_0000_0000 < n < 0x1_0000_0000_0000_0000_0000,
        -0x1_0000_0000_0000_0000_0000 < d < 0x1_0000_0000_0000_0000_0000,
    ensures
        r == frac01(n as int, d as int),
        0 <= r <= UNIT,
{
    proof {
        lemma_frac01_bounded(n as int, d as int);
    }
    let (m, e) = if d < 0 { (-n, -d) } else { (n, d) };
    if m <= 0 {
        0
    } else if m >= e {
        UNIT
    } else {
        assert(0 <= m * 1_000_000 <= 0x1_0000_0000_0000_0000_0000 * 1_000_000) by (nonlinear_arith)
            requires
                0 < m < 0x1_0000_0000_0000_0000_0000,
        ;
        let q = m * (UNIT as i128) / e;
        q as i64
    }
}

} // verus!
