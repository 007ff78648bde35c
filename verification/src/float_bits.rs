//! IEEE-754 comparison and sign manipulation, stated and computed directly
//! on the bit patterns held in the 64-bit containers (the low 32 bits for
//! single precision). NaN compares unordered: every ordered comparison on a
//! NaN is false and only `Ne` is true.

use vstd::prelude::*;
use crate::ops::BinOp;

verus! {

/// A single-precision NaN pattern: exponent all ones, mantissa nonzero.
pub open spec fn f32_is_nan(bits: u64) -> bool {
    let x = bits & 0xFFFF_FFFF;
    x & 0x7F80_0000 == 0x7F80_0000 && x & 0x007F_FFFF != 0
}

/// A double-precision NaN pattern.
pub open spec fn f64_is_nan(bits: u64) -> bool {
    bits & 0x7FF0_0000_0000_0000 == 0x7FF0_0000_0000_0000
        && bits & 0x000F_FFFF_FFFF_FFFF != 0
}

/// IEEE equality of two non-NaN sign/magnitude patterns: identical bits, or
/// both zeros (+0 equals -0); `mag` masks out the sign bit.
pub open spec fn sm_eq(a: u64, b: u64, mag: u64) -> bool {
    a == b || (a & mag == 0 && b & mag == 0)
}

/// IEEE strict order of two non-NaN sign/magnitude patterns: `sign` is the
/// sign bit, `mag` the magnitude mask. Magnitude patterns order like their
/// unsigned values within one sign; a negative is below a positive unless
/// both are zeros.
pub open spec fn sm_lt(a: u64, b: u64, sign: u64, mag: u64) -> bool {
    if (a & sign != 0) != (b & sign != 0) {
        a & sign != 0 && !(a & mag == 0 && b & mag == 0)
    } else if a & sign == 0 {
        a & mag < b & mag
    } else {
        a & mag > b & mag
    }
}

/// IEEE equality on single-precision patterns.
pub open spec fn f32_eq(a: u64, b: u64) -> bool {
    !f32_is_nan(a) && !f32_is_nan(b)
        && sm_eq(a & 0xFFFF_FFFF, b & 0xFFFF_FFFF, 0x7FFF_FFFF)
}

/// IEEE strict order on single-precision patterns.
pub open spec fn f32_lt(a: u64, b: u64) -> bool {
    !f32_is_nan(a) && !f32_is_nan(b)
        && sm_lt(a & 0xFFFF_FFFF, b & 0xFFFF_FFFF, 0x8000_0000, 0x7FFF_FFFF)
}

/// IEEE equality on double-precision patterns.
pub open spec fn f64_eq(a: u64, b: u64) -> bool {
    !f64_is_nan(a) && !f64_is_nan(b) && sm_eq(a, b, 0x7FFF_FFFF_FFFF_FFFF)
}

/// IEEE strict order on double-precision patterns.
pub open spec fn f64_lt(a: u64, b: u64) -> bool {
    !f64_is_nan(a) && !f64_is_nan(b)
        && sm_lt(a, b, 0x8000_0000_0000_0000, 0x7FFF_FFFF_FFFF_FFFF)
}

/// The verdict of an IEEE comparison on single-precision patterns.
pub open spec fn f32_compare(op: BinOp, a: u64, b: u64) -> bool {
    match op {
        BinOp::Eq => f32_eq(a, b),
        BinOp::Ne => !f32_eq(a, b),
        BinOp::Lt => f32_lt(a, b),
        BinOp::Le => f32_lt(a, b) || f32_eq(a, b),
        BinOp::Gt => f32_lt(b, a),
        BinOp::Ge => f32_lt(b, a) || f32_eq(b, a),
        _ => false,
    }
}

/// The verdict of an IEEE comparison on double-precision patterns.
pub open spec fn f64_compare(op: BinOp, a: u64, b: u64) -> bool {
    match op {
        BinOp::Eq => f64_eq(a, b),
        BinOp::Ne => !f64_eq(a, b),
        BinOp::Lt => f64_lt(a, b),
        BinOp::Le => f64_lt(a, b) || f64_eq(a, b),
        BinOp::Gt => f64_lt(b, a),
        BinOp::Ge => f64_lt(b, a) || f64_eq(b, a),
        _ => false,
    }
}

/// IEEE sign flip of the single-precision pattern: toggles the sign bit,
/// NaN included; the high container bits are cleared as on a fresh
/// single-precision result.
pub open spec fn f32_neg_bits(bits: u64) -> u64 {
    (bits & 0xFFFF_FFFF) ^ 0x8000_0000
}

/// IEEE sign flip of the double-precision pattern.
pub open spec fn f64_neg_bits(bits: u64) -> u64 {
    bits ^ 0x8000_0000_0000_0000
}

/// Evaluates an IEEE comparison on single-precision patterns.
pub fn f32_compare_bits(op: BinOp, a: u64, b: u64) -> (res: bool)
    requires
        op.is_comparison(),
    ensures
        res == f32_compare(op, a, b),
{
    let x = a & 0xFFFF_FFFF;
    let y = b & 0xFFFF_FFFF;
    let a_nan = x & 0x7F80_0000 == 0x7F80_0000 && x & 0x007F_FFFF != 0;
    let b_nan = y & 0x7F80_0000 == 0x7F80_0000 && y & 0x007F_FFFF != 0;
    let ordered = !a_nan && !b_nan;
    let eq = ordered && (x == y || (x & 0x7FFF_FFFF == 0 && y & 0x7FFF_FFFF == 0));
    let lt = ordered && (if (x & 0x8000_0000 != 0) != (y & 0x8000_0000 != 0) {
        x & 0x8000_0000 != 0 && !(x & 0x7FFF_FFFF == 0 && y & 0x7FFF_FFFF == 0)
    } else if x & 0x8000_0000 == 0 {
        x & 0x7FFF_FFFF < y & 0x7FFF_FFFF
    } else {
        x & 0x7FFF_FFFF > y & 0x7FFF_FFFF
    });
    let gt = ordered && (if (y & 0x8000_0000 != 0) != (x & 0x8000_0000 != 0) {
        y & 0x8000_0000 != 0 && !(y & 0x7FFF_FFFF == 0 && x & 0x7FFF_FFFF == 0)
    } else if y & 0x8000_0000 == 0 {
        y & 0x7FFF_FFFF < x & 0x7FFF_FFFF
    } else {
        y & 0x7FFF_FFFF > x & 0x7FFF_FFFF
    });
    match op {
        BinOp::Eq => eq,
        BinOp::Ne => !eq,
        BinOp::Lt => lt,
        BinOp::Le => lt || eq,
        BinOp::Gt => gt,
        _ => gt || eq,
    }
}

/// Evaluates an IEEE comparison on double-precision patterns.
pub fn f64_compare_bits(op: BinOp, a: u64, b: u64) -> (res: bool)
    requires
        op.is_comparison(),
    ensures
        res == f64_compare(op, a, b),
{
    let a_nan = a & 0x7FF0_0000_0000_0000 == 0x7FF0_0000_0000_0000
        && a & 0x000F_FFFF_FFFF_FFFF != 0;
    let b_nan = b & 0x7FF0_0000_0000_0000 == 0x7FF0_0000_0000_0000
        && b & 0x000F_FFFF_FFFF_FFFF != 0;
    let ordered = !a_nan && !b_nan;
    let eq = ordered && (a == b
        || (a & 0x7FFF_FFFF_FFFF_FFFF == 0 && b & 0x7FFF_FFFF_FFFF_FFFF == 0));
    let lt = ordered && (if (a & 0x8000_0000_0000_0000 != 0) != (b & 0x8000_0000_0000_0000
        != 0) {
        a & 0x8000_0000_0000_0000 != 0 && !(a & 0x7FFF_FFFF_FFFF_FFFF == 0
            && b & 0x7FFF_FFFF_FFFF_FFFF == 0)
    } else if a & 0x8000_0000_0000_0000 == 0 {
        a & 0x7FFF_FFFF_FFFF_FFFF < b & 0x7FFF_FFFF_FFFF_FFFF
    } else {
        a & 0x7FFF_FFFF_FFFF_FFFF > b & 0x7FFF_FFFF_FFFF_FFFF
    });
    let gt = ordered && (if (b & 0x8000_0000_0000_0000 != 0) != (a & 0x8000_0000_0000_0000
        != 0) {
        b & 0x8000_0000_0000_0000 != 0 && !(b & 0x7FFF_FFFF_FFFF_FFFF == 0
            && a & 0x7FFF_FFFF_FFFF_FFFF == 0)
    } else if b & 0x8000_0000_0000_0000 == 0 {
        b & 0x7FFF_FFFF_FFFF_FFFF < a & 0x7FFF_FFFF_FFFF_FFFF
    } else {
        b & 0x7FFF_FFFF_FFFF_FFFF > a & 0x7FFF_FFFF_FFFF_FFFF
    });
    match op {
        BinOp::Eq => eq,
        BinOp::Ne => !eq,
        BinOp::Lt => lt,
        BinOp::Le => lt || eq,
        BinOp::Gt => gt,
        _ => gt || eq,
    }
}

} // verus!
