//! Overflow-tracking integer arithmetic and shift evaluation at each integer
//! kind's exact bit width and signedness.

use vstd::prelude::*;
use vstd::arithmetic::div_mod::{
    lemma_div_basics, lemma_div_is_ordered, lemma_div_is_ordered_by_denominator,
    lemma_div_nonincreasing, lemma_div_pos_is_pos, lemma_mod_add_multiples_vanish,
    lemma_mod_bound, lemma_mod_multiples_vanish, lemma_small_mod,
};
use crate::ops::BinOp;
use crate::value::{
    container_bits, int_max, int_min, kind_modulus, kind_val, wrap_val, PrimValKind,
};

verus! {

/// Truncating integer division: the quotient rounded toward zero, the native
/// machine semantics (Verus's `/` on `int` rounds toward negative infinity).
pub open spec fn tdiv(x: int, d: int) -> int {
    if x == 0 {
        0
    } else if x > 0 && d > 0 {
        x / d
    } else if x < 0 && d < 0 {
        (x * -1) / (d * -1)
    } else if x < 0 {
        ((x * -1) / d) * -1
    } else {
        (x / (d * -1)) * -1
    }
}

/// Truncating remainder: `x - d * tdiv(x, d)`, carrying the sign of `x`.
pub open spec fn trem(x: int, d: int) -> int {
    if x == 0 {
        0
    } else if x > 0 && d > 0 {
        x % d
    } else if x < 0 && d < 0 {
        ((x * -1) % (d * -1)) * -1
    } else if x < 0 {
        ((x * -1) % d) * -1
    } else {
        x % (d * -1)
    }
}

/// Exact mathematical result of an arithmetic operator on the operands read
/// at kind `k`.
pub open spec fn exact_arith(op: BinOp, k: PrimValKind, l: u64, r: u64) -> int {
    let a = kind_val(k, l);
    let b = kind_val(k, r);
    match op {
        BinOp::Add => a + b,
        BinOp::Sub => a - b,
        BinOp::Mul => a * b,
        BinOp::Div => tdiv(a, b),
        BinOp::Rem => trem(a, b),
        _ => 0,
    }
}

/// The overflow flag: the exact result does not fit the kind's range. For
/// `Div` and `Rem` this happens exactly in the one wrapping case `MIN / -1`
/// of a signed kind (where the hardware remainder is 0 with the flag set).
pub open spec fn arith_overflow(op: BinOp, k: PrimValKind, l: u64, r: u64) -> bool {
    if op is Div || op is Rem {
        k.is_signed_int() && kind_val(k, l) == int_min(k) && kind_val(k, r) == -1
    } else {
        !(int_min(k) <= exact_arith(op, k, l, r) <= int_max(k))
    }
}

/// The result container: the exact result wrapped into the kind's range
/// (two's complement, modulo 2^width) and zero/sign-extended into 64 bits.
pub open spec fn arith_result_bits(op: BinOp, k: PrimValKind, l: u64, r: u64) -> u64 {
    container_bits(wrap_val(k, exact_arith(op, k, l, r)))
}

/// Euclidean modulus on the three windows around `[0, m)`.
proof fn lemma_mod_window(m: int, x: int)
    requires
        m > 0,
    ensures
        0 <= x < m ==> x % m == x,
        -m <= x < 0 ==> x % m == x + m,
        m <= x < 2 * m ==> x % m == x - m,
{
    if 0 <= x < m {
        lemma_small_mod(x as nat, m as nat);
    } else if -m <= x < 0 {
        lemma_mod_add_multiples_vanish(x, m);
        lemma_small_mod((x + m) as nat, m as nat);
    } else if m <= x < 2 * m {
        lemma_mod_add_multiples_vanish(x - m, m);
        lemma_small_mod((x - m) as nat, m as nat);
    }
}

/// Characterizes two's-complement wraparound on the window that a single
/// addition, subtraction or negation of in-range values can reach.
pub proof fn lemma_wrap_val_near(k: PrimValKind, x: int)
    requires
        k.is_int(),
        -kind_modulus(k) <= x,
        k.is_signed_int() ==> x < kind_modulus(k),
        !k.is_signed_int() ==> x < 2 * kind_modulus(k),
    ensures
        int_min(k) <= x <= int_max(k) ==> wrap_val(k, x) == x,
        x < int_min(k) ==> wrap_val(k, x) == x + kind_modulus(k),
        x > int_max(k) ==> wrap_val(k, x) == x - kind_modulus(k),
{
    lemma_mod_window(kind_modulus(k), x);
}

/// Wrapping an in-range value changes nothing, and its canonical container
/// reads back as the value itself.
pub proof fn lemma_container_roundtrip(k: PrimValKind, v: int)
    requires
        k.is_int(),
        int_min(k) <= v <= int_max(k),
    ensures
        kind_val(k, container_bits(v)) == v,
        container_bits(v) == container_bits(kind_val(k, container_bits(v))),
{
    let m = kind_modulus(k);
    if v >= 0 {
        lemma_mod_window(m, v);
    } else {
        let c = 0x1_0000_0000_0000_0000int / m;
        assert(m * c == 0x1_0000_0000_0000_0000);
        lemma_mod_multiples_vanish(c, v, m);
        lemma_mod_window(m, v);
    }
}

/// Quotient and remainder of in-range operands stay in range, except the one
/// wrapping case `MIN / -1` of a signed kind.
pub proof fn lemma_div_rem_range(k: PrimValKind, x: int, d: int)
    requires
        k.is_int(),
        int_min(k) <= x <= int_max(k),
        int_min(k) <= d <= int_max(k),
        d != 0,
        !(x == int_min(k) && d == -1),
    ensures
        int_min(k) <= tdiv(x, d) <= int_max(k),
        int_min(k) <= trem(x, d) <= int_max(k),
{
    let m = kind_modulus(k);
    if !k.is_signed_int() {
        if x != 0 {
            lemma_div_pos_is_pos(x, d);
            lemma_div_nonincreasing(x, d);
            lemma_mod_bound(x, d);
        }
    } else {
        let ax = if x < 0 { x * -1 } else { x };
        let ad = if d < 0 { d * -1 } else { d };
        assert(0 <= ax <= m / 2);
        assert(1 <= ad <= m / 2);
        if x != 0 {
            lemma_div_pos_is_pos(ax, ad);
            lemma_mod_bound(ax, ad);
            if ad == 1 {
                lemma_div_basics(ax);
            } else {
                lemma_div_is_ordered_by_denominator(ax, 2, ad);
                lemma_div_is_ordered(ax, m / 2, 2);
            }
        }
    }
}

/// How a 64-bit container's low bits read at width 8, signed and unsigned.
pub proof fn lemma_view_8(l: u64)
    by (bit_vector)
    ensures
        (l as i8) as int == (if (l as int) % 0x100 >= 0x80 {
            (l as int) % 0x100 - 0x100
        } else {
            (l as int) % 0x100
        }),
        (l as u8) as int == (l as int) % 0x100,
{
}

/// Sign extension of an 8-bit value into the 64-bit container.
pub proof fn lemma_sext_8(v: i8)
    by (bit_vector)
    ensures
        (v as u64) as int == (if v < 0 {
            v + 0x1_0000_0000_0000_0000
        } else {
            v as int
        }),
{
}

fn arith_i8(op: BinOp, l: u64, r: u64) -> (res: (u64, bool))
    requires
        op.is_arith(),
        (op is Div || op is Rem) ==> kind_val(PrimValKind::I8, r) != 0,
    ensures
        res.0 == arith_result_bits(op, PrimValKind::I8, l, r),
        res.1 == arith_overflow(op, PrimValKind::I8, l, r),
{
    let a: i8 = #[verifier::truncate] (l as i8);
    let b: i8 = #[verifier::truncate] (r as i8);
    proof {
        lemma_view_8(l);
        lemma_view_8(r);
        assert(a as int == kind_val(PrimValKind::I8, l));
        assert(b as int == kind_val(PrimValKind::I8, r));
    }
    match op {
        BinOp::Add => {
            let v: i8 = a.wrapping_add(b);
            let of: bool = a.checked_add(b).is_none();
            proof {
                lemma_wrap_val_near(PrimValKind::I8, a as int + b as int);
                lemma_sext_8(v);
            }
            ((v as u64), of)
        }
        BinOp::Sub => {
            let v: i8 = a.wrapping_sub(b);
            let of: bool = a.checked_sub(b).is_none();
            proof {
                lemma_wrap_val_near(PrimValKind::I8, a as int - b as int);
                lemma_sext_8(v);
            }
            ((v as u64), of)
        }
        BinOp::Mul => {
            let v: i8 = a.wrapping_mul(b);
            let of: bool = a.checked_mul(b).is_none();
            proof {
                lemma_mod_bound(a as int * b as int, 0x100);
                lemma_sext_8(v);
            }
            ((v as u64), of)
        }
        BinOp::Div => {
            if a == i8::MIN && b == -1 {
                proof {
                    lemma_div_basics(0x80);
                    lemma_mod_window(0x100, 0x80);
                    lemma_sext_8(a);
                }
                ((a as u64), true)
            } else {
                proof {
                    lemma_div_rem_range(PrimValKind::I8, a as int, b as int);
                    lemma_wrap_val_near(PrimValKind::I8, tdiv(a as int, b as int));
                }
                let v: i8 = a.checked_div(b).unwrap();
                proof {
                    lemma_sext_8(v);
                }
                ((v as u64), false)
            }
        }
        _ => {
            if a == i8::MIN && b == -1 {
                proof {
                    lemma_mod_bound(0x80, 1);
                    lemma_mod_window(0x100, 0);
                }
                (0u64, true)
            } else {
                proof {
                    lemma_div_rem_range(PrimValKind::I8, a as int, b as int);
                    lemma_wrap_val_near(PrimValKind::I8, trem(a as int, b as int));
                }
                let v: i8 = a.checked_rem(b).unwrap();
                proof {
                    lemma_sext_8(v);
                }
                ((v as u64), false)
            }
        }
    }
}

fn arith_u8(op: BinOp, l: u64, r: u64) -> (res: (u64, bool))
    requires
        op.is_arith(),
        (op is Div || op is Rem) ==> kind_val(PrimValKind::U8, r) != 0,
    ensures
        res.0 == arith_result_bits(op, PrimValKind::U8, l, r),
        res.1 == arith_overflow(op, PrimValKind::U8, l, r),
{
    let a: u8 = #[verifier::truncate] (l as u8);
    let b: u8 = #[verifier::truncate] (r as u8);
    proof {
        lemma_view_8(l);
        lemma_view_8(r);
        assert(a as int == kind_val(PrimValKind::U8, l));
        assert(b as int == kind_val(PrimValKind::U8, r));
    }
    match op {
        BinOp::Add => {
            let v: u8 = a.wrapping_add(b);
            let of: bool = a.checked_add(b).is_none();
            proof {
                lemma_wrap_val_near(PrimValKind::U8, a as int + b as int);
            }
            ((v as u64), of)
        }
        BinOp::Sub => {
            let v: u8 = a.wrapping_sub(b);
            let of: bool = a.checked_sub(b).is_none();
            proof {
                lemma_wrap_val_near(PrimValKind::U8, a as int - b as int);
            }
            ((v as u64), of)
        }
        BinOp::Mul => {
            let v: u8 = a.wrapping_mul(b);
            let of: bool = a.checked_mul(b).is_none();
            proof {
                lemma_mod_bound(a as int * b as int, 0x100);
            }
            ((v as u64), of)
        }
        BinOp::Div => {
            proof {
                lemma_div_rem_range(PrimValKind::U8, a as int, b as int);
                lemma_wrap_val_near(PrimValKind::U8, tdiv(a as int, b as int));
                lemma_div_basics(b as int);
            }
            let v: u8 = a / b;
            ((v as u64), false)
        }
        _ => {
            proof {
                lemma_div_rem_range(PrimValKind::U8, a as int, b as int);
                lemma_wrap_val_near(PrimValKind::U8, trem(a as int, b as int));
                lemma_small_mod(0nat, b as nat);
            }
            let v: u8 = a % b;
            ((v as u64), false)
        }
    }
}

/// How a 64-bit container's low bits read at width 16, signed and unsigned.
pub proof fn lemma_view_16(l: u64)
    by (bit_vector)
    ensures
        (l as i16) as int == (if (l as int) % 0x1_0000 >= 0x8000 {
            (l as int) % 0x1_0000 - 0x1_0000
        } else {
            (l as int) % 0x1_0000
        }),
        (l as u16) as int == (l as int) % 0x1_0000,
{
}

/// Sign extension of a 16-bit value into the 64-bit container.
pub proof fn lemma_sext_16(v: i16)
    by (bit_vector)
    ensures
        (v as u64) as int == (if v < 0 {
            v + 0x1_0000_0000_0000_0000
        } else {
            v as int
        }),
{
}

fn arith_i16(op: BinOp, l: u64, r: u64) -> (res: (u64, bool))
    requires
        op.is_arith(),
        (op is Div || op is Rem) ==> kind_val(PrimValKind::I16, r) != 0,
    ensures
        res.0 == arith_result_bits(op, PrimValKind::I16, l, r),
        res.1 == arith_overflow(op, PrimValKind::I16, l, r),
{
    let a: i16 = #[verifier::truncate] (l as i16);
    let b: i16 = #[verifier::truncate] (r as i16);
    proof {
        lemma_view_16(l);
        lemma_view_16(r);
        assert(a as int == kind_val(PrimValKind::I16, l));
        assert(b as int == kind_val(PrimValKind::I16, r));
    }
    match op {
        BinOp::Add => {
            let v: i16 = a.wrapping_add(b);
            let of: bool = a.checked_add(b).is_none();
            proof {
                lemma_wrap_val_near(PrimValKind::I16, a as int + b as int);
                lemma_sext_16(v);
            }
            ((v as u64), of)
        }
        BinOp::Sub => {
            let v: i16 = a.wrapping_sub(b);
            let of: bool = a.checked_sub(b).is_none();
            proof {
                lemma_wrap_val_near(PrimValKind::I16, a as int - b as int);
                lemma_sext_16(v);
            }
            ((v as u64), of)
        }
        BinOp::Mul => {
            let v: i16 = a.wrapping_mul(b);
            let of: bool = a.checked_mul(b).is_none();
            proof {
                lemma_mod_bound(a as int * b as int, 0x1_0000);
                lemma_sext_16(v);
            }
            ((v as u64), of)
        }
        BinOp::Div => {
            if a == i16::MIN && b == -1 {
                proof {
                    lemma_div_basics(0x8000);
                    lemma_mod_window(0x1_0000, 0x8000);
                    lemma_sext_16(a);
                }
                ((a as u64), true)
            } else {
                proof {
                    lemma_div_rem_range(PrimValKind::I16, a as int, b as int);
                    lemma_wrap_val_near(PrimValKind::I16, tdiv(a as int, b as int));
                }
                let v: i16 = a.checked_div(b).unwrap();
                proof {
                    lemma_sext_16(v);
                }
                ((v as u64), false)
            }
        }
        _ => {
            if a == i16::MIN && b == -1 {
                proof {
                    lemma_mod_bound(0x8000, 1);
                    lemma_mod_window(0x1_0000, 0);
                }
                (0u64, true)
            } else {
                proof {
                    lemma_div_rem_range(PrimValKind::I16, a as int, b as int);
                    lemma_wrap_val_near(PrimValKind::I16, trem(a as int, b as int));
                }
                let v: i16 = a.checked_rem(b).unwrap();
                proof {
                    lemma_sext_16(v);
                }
                ((v as u64), false)
            }
        }
    }
}

fn arith_u16(op: BinOp, l: u64, r: u64) -> (res: (u64, bool))
    requires
        op.is_arith(),
        (op is Div || op is Rem) ==> kind_val(PrimValKind::U16, r) != 0,
    ensures
        res.0 == arith_result_bits(op, PrimValKind::U16, l, r),
        res.1 == arith_overflow(op, PrimValKind::U16, l, r),
{
    let a: u16 = #[verifier::truncate] (l as u16);
    let b: u16 = #[verifier::truncate] (r as u16);
    proof {
        lemma_view_16(l);
        lemma_view_16(r);
        assert(a as int == kind_val(PrimValKind::U16, l));
        assert(b as int == kind_val(PrimValKind::U16, r));
    }
    match op {
        BinOp::Add => {
            let v: u16 = a.wrapping_add(b);
            let of: bool = a.checked_add(b).is_none();
            proof {
                lemma_wrap_val_near(PrimValKind::U16, a as int + b as int);
            }
            ((v as u64), of)
        }
        BinOp::Sub => {
            let v: u16 = a.wrapping_sub(b);
            let of: bool = a.checked_sub(b).is_none();
            proof {
                lemma_wrap_val_near(PrimValKind::U16, a as int - b as int);
            }
            ((v as u64), of)
        }
        BinOp::Mul => {
            let v: u16 = a.wrapping_mul(b);
            let of: bool = a.checked_mul(b).is_none();
            proof {
                lemma_mod_bound(a as int * b as int, 0x1_0000);
            }
            ((v as u64), of)
        }
        BinOp::Div => {
            proof {
                lemma_div_rem_range(PrimValKind::U16, a as int, b as int);
                lemma_wrap_val_near(PrimValKind::U16, tdiv(a as int, b as int));
                lemma_div_basics(b as int);
            }
            let v: u16 = a / b;
            ((v as u64), false)
        }
        _ => {
            proof {
                lemma_div_rem_range(PrimValKind::U16, a as int, b as int);
                lemma_wrap_val_near(PrimValKind::U16, trem(a as int, b as int));
                lemma_small_mod(0nat, b as nat);
            }
            let v: u16 = a % b;
            ((v as u64), false)
        }
    }
}

/// How a 64-bit container's low bits read at width 32, signed and unsigned.
pub proof fn lemma_view_32(l: u64)
    by (bit_vector)
    ensures
        (l as i32) as int == (if (l as int) % 0x1_0000_0000 >= 0x8000_0000 {
            (l as int) % 0x1_0000_0000 - 0x1_0000_0000
        } else {
            (l as int) % 0x1_0000_0000
        }),
        (l as u32) as int == (l as int) % 0x1_0000_0000,
{
}

/// Sign extension of a 32-bit value into the 64-bit container.
pub proof fn lemma_sext_32(v: i32)
    by (bit_vector)
    ensures
        (v as u64) as int == (if v < 0 {
            v + 0x1_0000_0000_0000_0000
        } else {
            v as int
        }),
{
}

fn arith_i32(op: BinOp, l: u64, r: u64) -> (res: (u64, bool))
    requires
        op.is_arith(),
        (op is Div || op is Rem) ==> kind_val(PrimValKind::I32, r) != 0,
    ensures
        res.0 == arith_result_bits(op, PrimValKind::I32, l, r),
        res.1 == arith_overflow(op, PrimValKind::I32, l, r),
{
    let a: i32 = #[verifier::truncate] (l as i32);
    let b: i32 = #[verifier::truncate] (r as i32);
    proof {
        lemma_view_32(l);
        lemma_view_32(r);
        assert(a as int == kind_val(PrimValKind::I32, l));
        assert(b as int == kind_val(PrimValKind::I32, r));
    }
    match op {
        BinOp::Add => {
            let v: i32 = a.wrapping_add(b);
            let of: bool = a.checked_add(b).is_none();
            proof {
                lemma_wrap_val_near(PrimValKind::I32, a as int + b as int);
                lemma_sext_32(v);
            }
            ((v as u64), of)
        }
        BinOp::Sub => {
            let v: i32 = a.wrapping_sub(b);
            let of: bool = a.checked_sub(b).is_none();
            proof {
                lemma_wrap_val_near(PrimValKind::I32, a as int - b as int);
                lemma_sext_32(v);
            }
            ((v as u64), of)
        }
        BinOp::Mul => {
            let v: i32 = a.wrapping_mul(b);
            let of: bool = a.checked_mul(b).is_none();
            proof {
                lemma_mod_bound(a as int * b as int, 0x1_0000_0000);
                lemma_sext_32(v);
            }
            ((v as u64), of)
        }
        BinOp::Div => {
            if a == i32::MIN && b == -1 {
                proof {
                    lemma_div_basics(0x8000_0000);
                    lemma_mod_window(0x1_0000_0000, 0x8000_0000);
                    lemma_sext_32(a);
                }
                ((a as u64), true)
            } else {
                proof {
                    lemma_div_rem_range(PrimValKind::I32, a as int, b as int);
                    lemma_wrap_val_near(PrimValKind::I32, tdiv(a as int, b as int));
                }
                let v: i32 = a.checked_div(b).unwrap();
                proof {
                    lemma_sext_32(v);
                }
                ((v as u64), false)
            }
        }
        _ => {
            if a == i32::MIN && b == -1 {
                proof {
                    lemma_mod_bound(0x8000_0000, 1);
                    lemma_mod_window(0x1_0000_0000, 0);
                }
                (0u64, true)
            } else {
                proof {
                    lemma_div_rem_range(PrimValKind::I32, a as int, b as int);
                    lemma_wrap_val_near(PrimValKind::I32, trem(a as int, b as int));
                }
                let v: i32 = a.checked_rem(b).unwrap();
                proof {
                    lemma_sext_32(v);
                }
                ((v as u64), false)
            }
        }
    }
}

fn arith_u32(op: BinOp, l: u64, r: u64) -> (res: (u64, bool))
    requires
        op.is_arith(),
        (op is Div || op is Rem) ==> kind_val(PrimValKind::U32, r) != 0,
    ensures
        res.0 == arith_result_bits(op, PrimValKind::U32, l, r),
        res.1 == arith_overflow(op, PrimValKind::U32, l, r),
{
    let a: u32 = #[verifier::truncate] (l as u32);
    let b: u32 = #[verifier::truncate] (r as u32);
    proof {
        lemma_view_32(l);
        lemma_view_32(r);
        assert(a as int == kind_val(PrimValKind::U32, l));
        assert(b as int == kind_val(PrimValKind::U32, r));
    }
    match op {
        BinOp::Add => {
            let v: u32 = a.wrapping_add(b);
            let of: bool = a.checked_add(b).is_none();
            proof {
                lemma_wrap_val_near(PrimValKind::U32, a as int + b as int);
            }
            ((v as u64), of)
        }
        BinOp::Sub => {
            let v: u32 = a.wrapping_sub(b);
            let of: bool = a.checked_sub(b).is_none();
            proof {
                lemma_wrap_val_near(PrimValKind::U32, a as int - b as int);
            }
            ((v as u64), of)
        }
        BinOp::Mul => {
            let v: u32 = a.wrapping_mul(b);
            let of: bool = a.checked_mul(b).is_none();
            proof {
                lemma_mod_bound(a as int * b as int, 0x1_0000_0000);
            }
            ((v as u64), of)
        }
        BinOp::Div => {
            proof {
                lemma_div_rem_range(PrimValKind::U32, a as int, b as int);
                lemma_wrap_val_near(PrimValKind::U32, tdiv(a as int, b as int));
                lemma_div_basics(b as int);
            }
            let v: u32 = a / b;
            ((v as u64), false)
        }
        _ => {
            proof {
                lemma_div_rem_range(PrimValKind::U32, a as int, b as int);
                lemma_wrap_val_near(PrimValKind::U32, trem(a as int, b as int));
                lemma_small_mod(0nat, b as nat);
            }
            let v: u32 = a % b;
            ((v as u64), false)
        }
    }
}

/// How a 64-bit container's low bits read at width 64, signed and unsigned.
pub proof fn lemma_view_64(l: u64)
    by (bit_vector)
    ensures
        (l as i64) as int == (if (l as int) % 0x1_0000_0000_0000_0000 >= 0x8000_0000_0000_0000 {
            (l as int) % 0x1_0000_0000_0000_0000 - 0x1_0000_0000_0000_0000
        } else {
            (l as int) % 0x1_0000_0000_0000_0000
        }),
        (l as u64) as int == (l as int) % 0x1_0000_0000_0000_0000,
{
}

/// Sign extension of a 64-bit value into the 64-bit container.
pub proof fn lemma_sext_64(v: i64)
    by (bit_vector)
    ensures
        (v as u64) as int == (if v < 0 {
            v + 0x1_0000_0000_0000_0000
        } else {
            v as int
        }),
{
}

fn arith_i64(op: BinOp, l: u64, r: u64) -> (res: (u64, bool))
    requires
        op.is_arith(),
        (op is Div || op is Rem) ==> kind_val(PrimValKind::I64, r) != 0,
    ensures
        res.0 == arith_result_bits(op, PrimValKind::I64, l, r),
        res.1 == arith_overflow(op, PrimValKind::I64, l, r),
{
    let a: i64 = #[verifier::truncate] (l as i64);
    let b: i64 = #[verifier::truncate] (r as i64);
    proof {
        lemma_view_64(l);
        lemma_view_64(r);
        assert(a as int == kind_val(PrimValKind::I64, l));
        assert(b as int == kind_val(PrimValKind::I64, r));
    }
    match op {
        BinOp::Add => {
            let v: i64 = a.wrapping_add(b);
            let of: bool = a.checked_add(b).is_none();
            proof {
                lemma_wrap_val_near(PrimValKind::I64, a as int + b as int);
                lemma_sext_64(v);
            }
            ((v as u64), of)
        }
        BinOp::Sub => {
            let v: i64 = a.wrapping_sub(b);
            let of: bool = a.checked_sub(b).is_none();
            proof {
                lemma_wrap_val_near(PrimValKind::I64, a as int - b as int);
                lemma_sext_64(v);
            }
            ((v as u64), of)
        }
        BinOp::Mul => {
            let v: i64 = a.wrapping_mul(b);
            let of: bool = a.checked_mul(b).is_none();
            proof {
                lemma_mod_bound(a as int * b as int, 0x1_0000_0000_0000_0000);
                lemma_sext_64(v);
            }
            ((v as u64), of)
        }
        BinOp::Div => {
            if a == i64::MIN && b == -1 {
                proof {
                    lemma_div_basics(0x8000_0000_0000_0000);
                    lemma_mod_window(0x1_0000_0000_0000_0000, 0x8000_0000_0000_0000);
                    lemma_sext_64(a);
                }
                ((a as u64), true)
            } else {
                proof {
                    lemma_div_rem_range(PrimValKind::I64, a as int, b as int);
                    lemma_wrap_val_near(PrimValKind::I64, tdiv(a as int, b as int));
                }
                let v: i64 = a.checked_div(b).unwrap();
                proof {
                    lemma_sext_64(v);
                }
                ((v as u64), false)
            }
        }
        _ => {
            if a == i64::MIN && b == -1 {
                proof {
                    lemma_mod_bound(0x8000_0000_0000_0000, 1);
                    lemma_mod_window(0x1_0000_0000_0000_0000, 0);
                }
                (0u64, true)
            } else {
                proof {
                    lemma_div_rem_range(PrimValKind::I64, a as int, b as int);
                    lemma_wrap_val_near(PrimValKind::I64, trem(a as int, b as int));
                }
                let v: i64 = a.checked_rem(b).unwrap();
                proof {
                    lemma_sext_64(v);
                }
                ((v as u64), false)
            }
        }
    }
}

fn arith_u64(op: BinOp, l: u64, r: u64) -> (res: (u64, bool))
    requires
        op.is_arith(),
        (op is Div || op is Rem) ==> kind_val(PrimValKind::U64, r) != 0,
    ensures
        res.0 == arith_result_bits(op, PrimValKind::U64, l, r),
        res.1 == arith_overflow(op, PrimValKind::U64, l, r),
{
    let a: u64 = #[verifier::truncate] (l as u64);
    let b: u64 = #[verifier::truncate] (r as u64);
    proof {
        lemma_view_64(l);
        lemma_view_64(r);
        assert(a as int == kind_val(PrimValKind::U64, l));
        assert(b as int == kind_val(PrimValKind::U64, r));
    }
    match op {
        BinOp::Add => {
            let v: u64 = a.wrapping_add(b);
            let of: bool = a.checked_add(b).is_none();
            proof {
                lemma_wrap_val_near(PrimValKind::U64, a as int + b as int);
            }
            ((v as u64), of)
        }
        BinOp::Sub => {
            let v: u64 = a.wrapping_sub(b);
            let of: bool = a.checked_sub(b).is_none();
            proof {
                lemma_wrap_val_near(PrimValKind::U64, a as int - b as int);
            }
            ((v as u64), of)
        }
        BinOp::Mul => {
            let v: u64 = a.wrapping_mul(b);
            let of: bool = a.checked_mul(b).is_none();
            proof {
                lemma_mod_bound(a as int * b as int, 0x1_0000_0000_0000_0000);
            }
            ((v as u64), of)
        }
        BinOp::Div => {
            proof {
                lemma_div_rem_range(PrimValKind::U64, a as int, b as int);
                lemma_wrap_val_near(PrimValKind::U64, tdiv(a as int, b as int));
                lemma_div_basics(b as int);
            }
            let v: u64 = a / b;
            ((v as u64), false)
        }
        _ => {
            proof {
                lemma_div_rem_range(PrimValKind::U64, a as int, b as int);
                lemma_wrap_val_near(PrimValKind::U64, trem(a as int, b as int));
                lemma_small_mod(0nat, b as nat);
            }
            let v: u64 = a % b;
            ((v as u64), false)
        }
    }
}


/// Dispatch of overflow-tracking arithmetic to the operand kind's exact
/// width and signedness.
pub fn int_arithmetic(op: BinOp, k: PrimValKind, l: u64, r: u64) -> (res: (u64, bool))
    requires
        op.is_arith(),
        k.is_int(),
        (op is Div || op is Rem) ==> kind_val(k, r) != 0,
    ensures
        res.0 == arith_result_bits(op, k, l, r),
        res.1 == arith_overflow(op, k, l, r),
{
    match k {
        PrimValKind::I8 => arith_i8(op, l, r),
        PrimValKind::I16 => arith_i16(op, l, r),
        PrimValKind::I32 => arith_i32(op, l, r),
        PrimValKind::I64 => arith_i64(op, l, r),
        PrimValKind::U8 => arith_u8(op, l, r),
        PrimValKind::U16 => arith_u16(op, l, r),
        PrimValKind::U32 => arith_u32(op, l, r),
        PrimValKind::U64 => arith_u64(op, l, r),
        _ => {
            proof {
                assert(false);
            }
            (0u64, false)
        }
    }
}

/// The shift-amount mask of an integer kind: width - 1.
pub open spec fn shift_mask(k: PrimValKind) -> u32 {
    match k {
        PrimValKind::I8 | PrimValKind::U8 => 7,
        PrimValKind::I16 | PrimValKind::U16 => 15,
        PrimValKind::I32 | PrimValKind::U32 => 31,
        PrimValKind::I64 | PrimValKind::U64 => 63,
        _ => 0,
    }
}

/// The effective shift amount: the right operand's low bits masked into
/// `[0, width)`, the hardware wraparound of shift amounts.
pub open spec fn shift_amount(k: PrimValKind, r: u64) -> u32 {
    (r as u32) & shift_mask(k)
}

/// Result container of a shift: the left operand shifted at its kind's exact
/// width and signedness (sign-propagating right shift for the signed kinds),
/// re-extended into 64 bits.
pub open spec fn shift_result_bits(op: BinOp, k: PrimValKind, l: u64, s: u32) -> u64 {
    match (op, k) {
        (BinOp::Shl, PrimValKind::I8) => ((l as i8) << s) as u64,
        (BinOp::Shl, PrimValKind::U8) => ((l as u8) << s) as u64,
        (BinOp::Shr, PrimValKind::I8) => ((l as i8) >> s) as u64,
        (BinOp::Shr, PrimValKind::U8) => ((l as u8) >> s) as u64,
        (BinOp::Shl, PrimValKind::I16) => ((l as i16) << s) as u64,
        (BinOp::Shl, PrimValKind::U16) => ((l as u16) << s) as u64,
        (BinOp::Shr, PrimValKind::I16) => ((l as i16) >> s) as u64,
        (BinOp::Shr, PrimValKind::U16) => ((l as u16) >> s) as u64,
        (BinOp::Shl, PrimValKind::I32) => ((l as i32) << s) as u64,
        (BinOp::Shl, PrimValKind::U32) => ((l as u32) << s) as u64,
        (BinOp::Shr, PrimValKind::I32) => ((l as i32) >> s) as u64,
        (BinOp::Shr, PrimValKind::U32) => ((l as u32) >> s) as u64,
        (BinOp::Shl, PrimValKind::I64) => ((l as i64) << s) as u64,
        (BinOp::Shl, PrimValKind::U64) => ((l as u64) << s) as u64,
        (BinOp::Shr, PrimValKind::I64) => ((l as i64) >> s) as u64,
        (BinOp::Shr, PrimValKind::U64) => ((l as u64) >> s) as u64,
        _ => 0,
    }
}

proof fn lemma_shift_amount_bounds(r: u64)
    by (bit_vector)
    ensures
        ((r as u32) & 7) < 8,
        ((r as u32) & 15) < 16,
        ((r as u32) & 31) < 32,
        ((r as u32) & 63) < 64,
{
}

/// Shift evaluation: only the left kind decides the width; the right
/// operand's low bits are masked into the valid shift range.
pub fn int_shift(op: BinOp, k: PrimValKind, l: u64, r: u64) -> (res: (u64, bool))
    requires
        op.is_shift(),
        k.is_int(),
    ensures
        res.0 == shift_result_bits(op, k, l, shift_amount(k, r)),
        res.1 == false,
{
    let type_bits: u32 = match k {
        PrimValKind::I8 | PrimValKind::U8 => 8,
        PrimValKind::I16 | PrimValKind::U16 => 16,
        PrimValKind::I32 | PrimValKind::U32 => 32,
        PrimValKind::I64 | PrimValKind::U64 => 64,
        _ => {
            proof {
                assert(false);
            }
            8
        }
    };
    let s: u32 = (r as u32) & (type_bits - 1);
    proof {
        lemma_shift_amount_bounds(r);
        assert(s == shift_amount(k, r));
    }
    match (op, k) {
        (BinOp::Shl, PrimValKind::I8) => {
            let x: i8 = #[verifier::truncate] (l as i8);
            (((x << s) as u64), false)
        }
        (BinOp::Shl, PrimValKind::U8) => {
            let x: u8 = #[verifier::truncate] (l as u8);
            (((x << s) as u64), false)
        }
        (BinOp::Shr, PrimValKind::I8) => {
            let x: i8 = #[verifier::truncate] (l as i8);
            (((x >> s) as u64), false)
        }
        (BinOp::Shr, PrimValKind::U8) => {
            let x: u8 = #[verifier::truncate] (l as u8);
            (((x >> s) as u64), false)
        }
        (BinOp::Shl, PrimValKind::I16) => {
            let x: i16 = #[verifier::truncate] (l as i16);
            (((x << s) as u64), false)
        }
        (BinOp::Shl, PrimValKind::U16) => {
            let x: u16 = #[verifier::truncate] (l as u16);
            (((x << s) as u64), false)
        }
        (BinOp::Shr, PrimValKind::I16) => {
            let x: i16 = #[verifier::truncate] (l as i16);
            (((x >> s) as u64), false)
        }
        (BinOp::Shr, PrimValKind::U16) => {
            let x: u16 = #[verifier::truncate] (l as u16);
            (((x >> s) as u64), false)
        }
        (BinOp::Shl, PrimValKind::I32) => {
            let x: i32 = #[verifier::truncate] (l as i32);
            (((x << s) as u64), false)
        }
        (BinOp::Shl, PrimValKind::U32) => {
            let x: u32 = #[verifier::truncate] (l as u32);
            (((x << s) as u64), false)
        }
        (BinOp::Shr, PrimValKind::I32) => {
            let x: i32 = #[verifier::truncate] (l as i32);
            (((x >> s) as u64), false)
        }
        (BinOp::Shr, PrimValKind::U32) => {
            let x: u32 = #[verifier::truncate] (l as u32);
            (((x >> s) as u64), false)
        }
        (BinOp::Shl, PrimValKind::I64) => {
            let x: i64 = #[verifier::truncate] (l as i64);
            (((x << s) as u64), false)
        }
        (BinOp::Shl, PrimValKind::U64) => {
            let x: u64 = #[verifier::truncate] (l as u64);
            (((x << s) as u64), false)
        }
        (BinOp::Shr, PrimValKind::I64) => {
            let x: i64 = #[verifier::truncate] (l as i64);
            (((x >> s) as u64), false)
        }
        (BinOp::Shr, PrimValKind::U64) => {
            let x: u64 = #[verifier::truncate] (l as u64);
            (((x >> s) as u64), false)
        }
        _ => {
            proof {
                assert(false);
            }
            (0u64, false)
        }
    }
}

/// Bitwise complement at the kind's exact width, re-extended into the
/// container (for the signed kinds the complement of the low bits again
/// sign-extends).
pub open spec fn not_result_bits(k: PrimValKind, bits: u64) -> u64 {
    match k {
        PrimValKind::I8 => (!(bits as i8)) as u64,
        PrimValKind::U8 => (!(bits as u8)) as u64,
        PrimValKind::I16 => (!(bits as i16)) as u64,
        PrimValKind::U16 => (!(bits as u16)) as u64,
        PrimValKind::I32 => (!(bits as i32)) as u64,
        PrimValKind::U32 => (!(bits as u32)) as u64,
        PrimValKind::I64 => (!(bits as i64)) as u64,
        PrimValKind::U64 => (!(bits as u64)) as u64,
        _ => 0,
    }
}

/// Two's-complement negation at the kind's exact width: the exact negative
/// wrapped into range (so `MIN` wraps to itself), re-extended. No overflow
/// flag exists on this path.
pub open spec fn neg_result_bits(k: PrimValKind, bits: u64) -> u64 {
    container_bits(wrap_val(k, -kind_val(k, bits)))
}

/// Width-exact bitwise complement.
pub fn int_not(k: PrimValKind, bits: u64) -> (res: u64)
    requires
        k.is_int(),
    ensures
        res == not_result_bits(k, bits),
{
    match k {
        PrimValKind::I8 => {
            let x: i8 = #[verifier::truncate] (bits as i8);
            (!x) as u64
        }
        PrimValKind::U8 => {
            let x: u8 = #[verifier::truncate] (bits as u8);
            (!x) as u64
        }
        PrimValKind::I16 => {
            let x: i16 = #[verifier::truncate] (bits as i16);
            (!x) as u64
        }
        PrimValKind::U16 => {
            let x: u16 = #[verifier::truncate] (bits as u16);
            (!x) as u64
        }
        PrimValKind::I32 => {
            let x: i32 = #[verifier::truncate] (bits as i32);
            (!x) as u64
        }
        PrimValKind::U32 => {
            let x: u32 = #[verifier::truncate] (bits as u32);
            (!x) as u64
        }
        PrimValKind::I64 => {
            let x: i64 = #[verifier::truncate] (bits as i64);
            (!x) as u64
        }
        PrimValKind::U64 => {
            let x: u64 = #[verifier::truncate] (bits as u64);
            (!x) as u64
        }
        _ => {
            proof {
                assert(false);
            }
            0
        }
    }
}

/// Width-exact wraparound negation of a signed kind.
pub fn int_neg(k: PrimValKind, bits: u64) -> (res: u64)
    requires
        k.is_signed_int(),
    ensures
        res == neg_result_bits(k, bits),
{
    match k {
        PrimValKind::I8 => {
            let a: i8 = #[verifier::truncate] (bits as i8);
            proof {
                lemma_view_8(bits);
            }
            let v: i8 = (0i8).wrapping_sub(a);
            proof {
                lemma_wrap_val_near(PrimValKind::I8, -(a as int));
                lemma_sext_8(v);
            }
            (v as u64)
        }
        PrimValKind::I16 => {
            let a: i16 = #[verifier::truncate] (bits as i16);
            proof {
                lemma_view_16(bits);
            }
            let v: i16 = (0i16).wrapping_sub(a);
            proof {
                lemma_wrap_val_near(PrimValKind::I16, -(a as int));
                lemma_sext_16(v);
            }
            (v as u64)
        }
        PrimValKind::I32 => {
            let a: i32 = #[verifier::truncate] (bits as i32);
            proof {
                lemma_view_32(bits);
            }
            let v: i32 = (0i32).wrapping_sub(a);
            proof {
                lemma_wrap_val_near(PrimValKind::I32, -(a as int));
                lemma_sext_32(v);
            }
            (v as u64)
        }
        PrimValKind::I64 => {
            let a: i64 = #[verifier::truncate] (bits as i64);
            proof {
                lemma_view_64(bits);
            }
            let v: i64 = (0i64).wrapping_sub(a);
            proof {
                lemma_wrap_val_near(PrimValKind::I64, -(a as int));
                lemma_sext_64(v);
            }
            (v as u64)
        }
        _ => {
            proof {
                assert(false);
            }
            0
        }
    }
}

/// The bit width of an integer kind.
pub open spec fn kind_width(k: PrimValKind) -> u32 {
    match k {
        PrimValKind::I8 | PrimValKind::U8 => 8,
        PrimValKind::I16 | PrimValKind::U16 => 16,
        PrimValKind::I32 | PrimValKind::U32 => 32,
        PrimValKind::I64 | PrimValKind::U64 => 64,
        _ => 0,
    }
}

/// Wrapped values lie in the kind's range.
pub proof fn lemma_wrap_val_in_range(k: PrimValKind, x: int)
    requires
        k.is_int(),
    ensures
        int_min(k) <= wrap_val(k, x) <= int_max(k),
{
    lemma_mod_bound(x, kind_modulus(k));
}

} // verus!
