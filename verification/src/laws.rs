//! The evaluator's general laws, proved once and for all operands from the
//! contracts of `binary_op` and `unary_op`.

use vstd::prelude::*;
use crate::error::EvalError;
use crate::float_bits::{f32_is_nan, f64_is_nan};
use crate::int_arith::{
    arith_result_bits, exact_arith, kind_width, lemma_container_roundtrip, lemma_sext_16,
    lemma_sext_32, lemma_sext_8, lemma_view_16, lemma_view_32, lemma_view_8,
    lemma_wrap_val_in_range, lemma_wrap_val_near, shift_amount,
};
use crate::operator::{binary_op_result, unary_op_result};
use crate::ops::{BinOp, UnOp};
use crate::value::{
    int_max, int_min, is_well_formed, kind_val, wrap_val, PrimVal, PrimValKind,
};

verus! {

/// Law: for every integer kind and every pair of operands, addition reports
/// overflow exactly when the exact sum leaves the kind's range, and the
/// returned container always reads back as the sum wrapped modulo 2^width.
pub proof fn lemma_add_wraps_and_flags(k: PrimValKind, a: PrimVal, b: PrimVal)
    requires
        k.is_int(),
        a.relocation is NoAlloc,
        b.relocation is NoAlloc,
    ensures
        binary_op_result(BinOp::Add, a, k, b, k) is Ok,
        ({
            let (v, of) = binary_op_result(BinOp::Add, a, k, b, k)->Ok_0;
            let exact = kind_val(k, a.bits) + kind_val(k, b.bits);
            &&& of == !(int_min(k) <= exact <= int_max(k))
            &&& kind_val(k, v.bits) == wrap_val(k, exact)
            &&& v.relocation is NoAlloc
        }),
{
    let exact = kind_val(k, a.bits) + kind_val(k, b.bits);
    lemma_wrap_val_in_range(k, exact);
    lemma_container_roundtrip(k, wrap_val(k, exact));
}

/// Law: a pointer equals itself (same allocation, same offset), and an
/// ordered comparison of pointers into different allocations fails with the
/// invalid-pointer-arithmetic error.
pub proof fn lemma_pointer_comparison(p: PrimVal, q: PrimVal, op: BinOp)
    requires
        op is Lt || op is Le || op is Gt || op is Ge,
        p.relocation != q.relocation,
    ensures
        binary_op_result(BinOp::Eq, p, PrimValKind::Ptr, p, PrimValKind::Ptr) == Result::<
            (PrimVal, bool),
            EvalError,
        >::Ok((PrimVal::spec_from_bool(true), false)),
        binary_op_result(op, p, PrimValKind::Ptr, q, PrimValKind::Ptr) == Result::<
            (PrimVal, bool),
            EvalError,
        >::Err(EvalError::InvalidPointerMath),
{
}

/// Law: equality and inequality of operands in different allocations never
/// fail, whatever the allocations and whether or not either side converts
/// to a plain integer: `Eq` is false and `Ne` is true, with overflow false.
pub proof fn lemma_unrelated_eq_ne_total(p: PrimVal, q: PrimVal, k1: PrimValKind, k2: PrimValKind)
    requires
        p.relocation != q.relocation,
    ensures
        binary_op_result(BinOp::Ne, p, k1, q, k2) == Result::<(PrimVal, bool), EvalError>::Ok(
            (PrimVal::spec_from_bool(true), false),
        ),
        binary_op_result(BinOp::Eq, p, k1, q, k2) == Result::<(PrimVal, bool), EvalError>::Ok(
            (PrimVal::spec_from_bool(false), false),
        ),
{
}

proof fn lemma_mask_mod(r: u64)
    by (bit_vector)
    ensures
        ((r % 8) as u32) & 7 == (r as u32) & 7,
        ((r % 16) as u32) & 15 == (r as u32) & 15,
        ((r % 32) as u32) & 31 == (r as u32) & 31,
        ((r % 64) as u32) & 63 == (r as u32) & 63,
{
}

/// Law: shift masking. A shift behaves identically whether the right
/// operand is `r` or `r mod width`: only the amount's low bits count.
pub proof fn lemma_shift_masking(
    op: BinOp,
    k: PrimValKind,
    rk: PrimValKind,
    x: PrimVal,
    r: PrimVal,
    rm: PrimVal,
)
    requires
        op.is_shift(),
        k.is_int(),
        x.relocation is NoAlloc,
        r.relocation is NoAlloc,
        rm.relocation is NoAlloc,
        rm.bits == r.bits % (kind_width(k) as u64),
    ensures
        binary_op_result(op, x, k, rm, rk) == binary_op_result(op, x, k, r, rk),
{
    lemma_mask_mod(r.bits);
    assert(shift_amount(k, rm.bits) == shift_amount(k, r.bits));
}

/// Law: NaN is unordered. With a NaN on either side every float comparison
/// except `Ne` is false, and `Ne` is true.
pub proof fn lemma_float_nan_unordered(op: BinOp, n: PrimVal, f: PrimVal, k: PrimValKind)
    requires
        op.is_comparison(),
        n.relocation is NoAlloc,
        f.relocation is NoAlloc,
        k is F32 || k is F64,
        k is F32 ==> f32_is_nan(n.bits) || f32_is_nan(f.bits),
        k is F64 ==> f64_is_nan(n.bits) || f64_is_nan(f.bits),
    ensures
        binary_op_result(op, n, k, f, k) == Result::<(PrimVal, bool), EvalError>::Ok(
            (PrimVal::spec_from_bool(op is Ne), false),
        ),
{
}

/// Law: `Not` is an involution. Applying it twice to a well-formed boolean
/// or integer container gives the value back.
pub proof fn lemma_not_involution(k: PrimValKind, x: PrimVal)
    requires
        k is Bool || k.is_int(),
        x.relocation is NoAlloc,
        is_well_formed(k, x.bits),
    ensures
        unary_op_result(UnOp::Not, x, k) is Ok,
        unary_op_result(
            UnOp::Not,
            unary_op_result(UnOp::Not, x, k)->Ok_0,
            k,
        ) == Result::<PrimVal, EvalError>::Ok(x),
{
    let l = x.bits;
    if k is Bool {
        assert(l & 1 == l && 0u64 & 1 == 0 && 1u64 & 1 == 1) by (bit_vector)
            requires
                l == 0 || l == 1,
        ;
    } else {
        lemma_well_formed_bits(k, l);
        if k is I8 {
            assert(l == ((l as i8) as u64) ==> ((!((((!(l as i8)) as u64)) as i8)) as u64) == l)
                by (bit_vector);
        } else if k is U8 {
            assert(((!((((!(l as u8)) as u64)) as u8)) as u64) == (l as u8) as u64)
                by (bit_vector);
        } else if k is I16 {
            assert(l == ((l as i16) as u64) ==> ((!((((!(l as i16)) as u64)) as i16)) as u64)
                == l) by (bit_vector);
        } else if k is U16 {
            assert(((!((((!(l as u16)) as u64)) as u16)) as u64) == (l as u16) as u64)
                by (bit_vector);
        } else if k is I32 {
            assert(l == ((l as i32) as u64) ==> ((!((((!(l as i32)) as u64)) as i32)) as u64)
                == l) by (bit_vector);
        } else if k is U32 {
            assert(((!((((!(l as u32)) as u64)) as u32)) as u64) == (l as u32) as u64)
                by (bit_vector);
        } else if k is I64 {
            assert(((!((((!(l as i64)) as u64)) as i64)) as u64) == l) by (bit_vector);
        } else {
            assert(((!((((!(l as u64)) as u64)) as u64)) as u64) == l) by (bit_vector);
        }
    }
}

/// A well-formed integer container is fixed by truncation to its width and
/// re-extension (the bit-level form of the container invariant).
proof fn lemma_well_formed_bits(k: PrimValKind, l: u64)
    requires
        k.is_int(),
        is_well_formed(k, l),
    ensures
        k is I8 ==> l == ((l as i8) as u64),
        k is U8 ==> l == ((l as u8) as u64),
        k is I16 ==> l == ((l as i16) as u64),
        k is U16 ==> l == ((l as u16) as u64),
        k is I32 ==> l == ((l as i32) as u64),
        k is U32 ==> l == ((l as u32) as u64),
{
    if k is I8 {
        lemma_view_8(l);
        lemma_sext_8(l as i8);
    } else if k is U8 {
        lemma_view_8(l);
    } else if k is I16 {
        lemma_view_16(l);
        lemma_sext_16(l as i16);
    } else if k is U16 {
        lemma_view_16(l);
    } else if k is I32 {
        lemma_view_32(l);
        lemma_sext_32(l as i32);
    } else if k is U32 {
        lemma_view_32(l);
    }
}

/// Law: wraparound negation is an involution on every signed kind. Twice
/// negating a well-formed container gives the value back; in particular the
/// minimum value negates to itself both times.
pub proof fn lemma_neg_involution(k: PrimValKind, x: PrimVal)
    requires
        k.is_signed_int(),
        x.relocation is NoAlloc,
        is_well_formed(k, x.bits),
    ensures
        unary_op_result(UnOp::Neg, x, k) is Ok,
        unary_op_result(
            UnOp::Neg,
            unary_op_result(UnOp::Neg, x, k)->Ok_0,
            k,
        ) == Result::<PrimVal, EvalError>::Ok(x),
        kind_val(k, x.bits) == int_min(k) ==> kind_val(
            k,
            unary_op_result(UnOp::Neg, x, k)->Ok_0.bits,
        ) == int_min(k),
{
    let a = kind_val(k, x.bits);
    lemma_wrap_val_in_range(k, x.bits as int);
    lemma_wrap_val_near(k, -a);
    let w1 = wrap_val(k, -a);
    lemma_wrap_val_in_range(k, w1);
    lemma_container_roundtrip(k, w1);
    lemma_wrap_val_near(k, -w1);
    let w2 = wrap_val(k, -w1);
    lemma_wrap_val_in_range(k, w2);
    lemma_container_roundtrip(k, w2);
    assert(w2 == a);
    lemma_container_roundtrip(k, a);
}

/// Law: integer arithmetic maintains the container invariant — the returned
/// bits are always the canonical zero/sign extension of the wrapped value.
pub proof fn lemma_int_arith_well_formed(op: BinOp, k: PrimValKind, l: u64, r: u64)
    requires
        op.is_arith(),
        k.is_int(),
    ensures
        is_well_formed(k, arith_result_bits(op, k, l, r)),
{
    lemma_wrap_val_in_range(k, exact_arith(op, k, l, r));
    lemma_container_roundtrip(k, wrap_val(k, exact_arith(op, k, l, r)));
}

} // verus!
