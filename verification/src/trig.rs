//! Fixed-point sine and cosine for rotations.
//!
//! Angles are milli-degrees; results are micro units in `[-1, 1]`. The
//! first quadrant is evaluated by a five-term Taylor series in truncated
//! micro fixed point (accurate to a few micro units) and the other
//! quadrants by symmetry, so the same angle gives the same value on every
//! machine.

use vstd::prelude::*;

verus! {

/// Milli-degrees of a full turn.
pub const TURN_MDEG: u64 = 360_000;

/// Milli-degrees of a quarter turn.
pub const QUARTER_MDEG: u64 = 90_000;

/// The micro-radian value of `r` milli-degrees, for `r` within a quarter
/// turn.
pub open spec fn spec_mdeg_to_urad(r: u64) -> int {
    (r * 3_141_592_654) / 180_000_000
}

/// Truncated five-term Taylor sine of `x` micro-radians, in micro units;
/// defined for the first quadrant and clamped to one.
pub open spec fn spec_sin_taylor(x: int) -> int {
    let x2 = (x * x) / 1_000_000;
    let x3 = (x2 * x) / 1_000_000;
    let x5 = (x3 * x2) / 1_000_000;
    let x7 = (x5 * x2) / 1_000_000;
    let x9 = (x7 * x2) / 1_000_000;
    let s = x - x3 / 6 + x5 / 120 - x7 / 5040 + x9 / 362880;
    if s > 1_000_000 {
        1_000_000
    } else if s < 0 {
        0
    } else {
        s
    }
}

/// The sine of `r` milli-degrees for `r` within the first quadrant.
pub open spec fn spec_sin_quadrant(r: u64) -> int {
    spec_sin_taylor(spec_mdeg_to_urad(r))
}

/// The sine of an angle in milli-degrees, in micro units.
pub open spec fn spec_sin_mdeg(v: i64) -> int {
    let a = spec_abs_mdeg(v) % (TURN_MDEG as int);
    let q = a / (QUARTER_MDEG as int);
    let r = (a % (QUARTER_MDEG as int)) as u64;
    let m = if q == 0 {
        spec_sin_quadrant(r)
    } else if q == 1 {
        spec_sin_quadrant((QUARTER_MDEG - r) as u64)
    } else if q == 2 {
        -spec_sin_quadrant(r)
    } else {
        -spec_sin_quadrant((QUARTER_MDEG - r) as u64)
    };
    if v < 0 {
        -m
    } else {
        m
    }
}

/// The cosine of an angle in milli-degrees, in micro units.
pub open spec fn spec_cos_mdeg(v: i64) -> int {
    let a = spec_abs_mdeg(v) % (TURN_MDEG as int);
    let q = a / (QUARTER_MDEG as int);
    let r = (a % (QUARTER_MDEG as int)) as u64;
    if q == 0 {
        spec_sin_quadrant((QUARTER_MDEG - r) as u64)
    } else if q == 1 {
        -spec_sin_quadrant(r)
    } else if q == 2 {
        -spec_sin_quadrant((QUARTER_MDEG - r) as u64)
    } else {
        spec_sin_quadrant(r)
    }
}

/// The absolute value of a milli-degree angle.
pub open spec fn spec_abs_mdeg(v: i64) -> int {
    if v >= 0 {
        v as int
    } else {
        -(v as int)
    }
}

proof fn mul_le(a: int, ab: int, b: int, bb: int)
    requires
        0 <= a <= ab,
        0 <= b <= bb,
    ensures
        a * b <= ab * bb,
{
    assert(a * b <= ab * bb) by (nonlinear_arith)
        requires
            0 <= a <= ab,
            0 <= b <= bb,
    ;
}

/// Truncated five-term Taylor sine for the first quadrant.
fn sin_taylor(x: u64) -> (s: i64)
    requires
        x <= 1_600_000,
    ensures
        s == spec_sin_taylor(x as int),
        0 <= s <= 1_000_000,
{
    proof {
        mul_le(x as int, 1_600_000, x as int, 1_600_000);
    }
    let x2 = (x * x) / 1_000_000;
    proof {
        vstd::arithmetic::div_mod::lemma_div_is_ordered(
            x * x,
            1_600_000i64 * 1_600_000i64,
            1_000_000,
        );
        mul_le(x2 as int, 2_560_000, x as int, 1_600_000);
    }
    let x3 = (x2 * x) / 1_000_000;
    proof {
        vstd::arithmetic::div_mod::lemma_div_is_ordered(
            x2 * x,
            2_560_000i64 * 1_600_000i64,
            1_000_000,
        );
        mul_le(x3 as int, 4_096_000, x2 as int, 2_560_000);
    }
    let x5 = (x3 * x2) / 1_000_000;
    proof {
        vstd::arithmetic::div_mod::lemma_div_is_ordered(
            x3 * x2,
            4_096_000i64 * 2_560_000i64,
            1_000_000,
        );
        mul_le(x5 as int, 10_485_760, x2 as int, 2_560_000);
    }
    let x7 = (x5 * x2) / 1_000_000;
    proof {
        vstd::arithmetic::div_mod::lemma_div_is_ordered(
            x5 * x2,
            10_485_760i64 * 2_560_000i64,
            1_000_000,
        );
        mul_le(x7 as int, 26_843_546, x2 as int, 2_560_000);
    }
    let x9 = (x7 * x2) / 1_000_000;
    proof {
        vstd::arithmetic::div_mod::lemma_div_is_ordered(
            x7 * x2,
            26_843_546i64 * 2_560_000i64,
            1_000_000,
        );
    }
    let s: i64 = x as i64 - (x3 / 6) as i64 + (x5 / 120) as i64 - (x7 / 5040) as i64 + (x9
        / 362880) as i64;
    if s > 1_000_000 {
        1_000_000
    } else if s < 0 {
        0
    } else {
        s
    }
}

/// The sine of `r` milli-degrees for `r` within the first quadrant.
fn sin_quadrant(r: u64) -> (s: i64)
    requires
        r <= QUARTER_MDEG,
    ensures
        s == spec_sin_quadrant(r),
        0 <= s <= 1_000_000,
{
    let x = (r * 3_141_592_654) / 180_000_000;
    proof {
        vstd::arithmetic::div_mod::lemma_div_is_ordered(
            r * 3_141_592_654,
            90_000u64 * 3_141_592_654,
            180_000_000,
        );
    }
    sin_taylor(x)
}

/// The sine of an angle in milli-degrees, in micro units.
pub fn sin_mdeg(v: i64) -> (s: i64)
    ensures
        s == spec_sin_mdeg(v),
        -1_000_000 <= s <= 1_000_000,
{
    let va: u64 = if v < 0 {
        if v == i64::MIN {
            (-(v as i128)) as u64
        } else {
            (-v) as u64
        }
    } else {
        v as u64
    };
    let a = va % TURN_MDEG;
    let q = a / QUARTER_MDEG;
    let r = a % QUARTER_MDEG;
    let m: i64 = if q == 0 {
        sin_quadrant(r)
    } else if q == 1 {
        sin_quadrant(QUARTER_MDEG - r)
    } else if q == 2 {
        -sin_quadrant(r)
    } else {
        -sin_quadrant(QUARTER_MDEG - r)
    };
    if v < 0 {
        -m
    } else {
        m
    }
}

/// The cosine of an angle in milli-degrees, in micro units.
pub fn cos_mdeg(v: i64) -> (s: i64)
    ensures
        s == spec_cos_mdeg(v),
        -1_000_000 <= s <= 1_000_000,
{
    let va: u64 = if v < 0 {
        if v == i64::MIN {
            (-(v as i128)) as u64
        } else {
            (-v) as u64
        }
    } else {
        v as u64
    };
    let a = va % TURN_MDEG;
    let q = a / QUARTER_MDEG;
    let r = a % QUARTER_MDEG;
    if q == 0 {
        sin_quadrant(QUARTER_MDEG - r)
    } else if q == 1 {
        -sin_quadrant(r)
    } else if q == 2 {
        -sin_quadrant(QUARTER_MDEG - r)
    } else {
        sin_quadrant(r)
    }
}

} // verus!
