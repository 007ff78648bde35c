//! The operator evaluator: `binary_op` computes one binary operation of the
//! instruction set on two typed operands and reports the result with an
//! overflow flag; `unary_op` computes a unary operation. Both are pure and
//! total on the operand contract; failures are typed values.

use vstd::prelude::*;
use crate::error::{EvalError, EvalResult};
use crate::float_arith::{float_arith_bits, float_arithmetic};
use crate::float_bits::{
    f32_compare, f32_compare_bits, f32_neg_bits, f64_compare, f64_compare_bits, f64_neg_bits,
};
use crate::int_arith::{
    arith_overflow, arith_result_bits, int_arithmetic, int_neg, int_not, int_shift,
    neg_result_bits, not_result_bits, shift_amount, shift_result_bits,
};
use crate::ops::{BinOp, UnOp};
use crate::value::{bits_to_bool, kind_val, spec_bits_to_bool, Pointer, PrimVal, PrimValKind};

verus! {

/// Verdict of the unrelated-pointer rule, for operands whose allocation
/// identities differ: equality is decidable from relation alone (`Eq` false,
/// `Ne` true), ordering across allocations is undefined, and any other
/// operation would read a pointer's bits as raw data.
pub open spec fn unrelated_ptr_result(bin_op: BinOp, left: Pointer, right: Pointer) -> EvalResult<
    PrimVal,
> {
    match bin_op {
        BinOp::Eq => Ok(PrimVal::spec_from_bool(false)),
        BinOp::Ne => Ok(PrimVal::spec_from_bool(true)),
        BinOp::Lt | BinOp::Le | BinOp::Gt | BinOp::Ge => Err(EvalError::InvalidPointerMath),
        _ => Err(EvalError::ReadPointerAsBytes),
    }
}

/// Raw 64-bit unsigned comparison of two containers: what comparison means
/// for every non-float kind — booleans and unsigned integers compare as
/// their values, canonical signed containers by their unsigned bit patterns,
/// and same-allocation pointers by their offsets.
pub open spec fn raw_compare(bin_op: BinOp, l: u64, r: u64) -> bool {
    match bin_op {
        BinOp::Eq => l == r,
        BinOp::Ne => l != r,
        BinOp::Lt => l < r,
        BinOp::Le => l <= r,
        BinOp::Gt => l > r,
        BinOp::Ge => l >= r,
        _ => false,
    }
}

/// The full verdict of `binary_op`, stage by stage: cross-allocation pointer
/// short-circuit; shifts (the right operand's kind is irrelevant); the
/// kind-mismatch guard; float comparison; float arithmetic; raw-pattern
/// comparison; bitwise logic on the raw patterns; width-exact integer
/// arithmetic; unimplemented combinations.
pub open spec fn binary_op_result(
    bin_op: BinOp,
    left: PrimVal,
    left_kind: PrimValKind,
    right: PrimVal,
    right_kind: PrimValKind,
) -> EvalResult<(PrimVal, bool)> {
    if left.relocation != right.relocation {
        match unrelated_ptr_result(bin_op, left.spec_to_ptr(), right.spec_to_ptr()) {
            Ok(v) => Ok((v, false)),
            Err(e) => Err(e),
        }
    } else if bin_op.is_shift() {
        Ok(
            (
                PrimVal::spec_new(
                    shift_result_bits(
                        bin_op,
                        left_kind,
                        left.bits,
                        shift_amount(left_kind, right.bits),
                    ),
                ),
                false,
            ),
        )
    } else if left_kind != right_kind {
        Err(EvalError::UnimplementedBinaryOp(bin_op, left, right))
    } else if left_kind is F32 && bin_op.is_comparison() {
        Ok((PrimVal::spec_from_bool(f32_compare(bin_op, left.bits, right.bits)), false))
    } else if left_kind is F64 && bin_op.is_comparison() {
        Ok((PrimVal::spec_from_bool(f64_compare(bin_op, left.bits, right.bits)), false))
    } else if left_kind.is_float() && bin_op.is_arith() {
        Ok((PrimVal::spec_new(float_arith_bits(bin_op, left_kind, left.bits, right.bits)), false))
    } else if bin_op.is_comparison() {
        Ok((PrimVal::spec_from_bool(raw_compare(bin_op, left.bits, right.bits)), false))
    } else if bin_op is BitOr {
        Ok((PrimVal::spec_new(left.bits | right.bits), false))
    } else if bin_op is BitAnd {
        Ok((PrimVal::spec_new(left.bits & right.bits), false))
    } else if bin_op is BitXor {
        Ok((PrimVal::spec_new(left.bits ^ right.bits), false))
    } else if left_kind.is_int() && bin_op.is_arith() {
        Ok(
            (
                PrimVal::spec_new(arith_result_bits(bin_op, left_kind, left.bits, right.bits)),
                arith_overflow(bin_op, left_kind, left.bits, right.bits),
            ),
        )
    } else {
        Err(EvalError::UnimplementedBinaryOp(bin_op, left, right))
    }
}

/// The unrelated-pointer rule on operands in different allocations. The
/// caller has ruled out the one contract violation (an arithmetic or bitwise
/// operation on two genuine pointers of different allocations).
fn unrelated_ptr_ops(bin_op: BinOp, left: Pointer, right: Pointer) -> (res: EvalResult<PrimVal>)
    requires
        left.alloc_id != right.alloc_id,
        !bin_op.is_comparison() ==> left.alloc_id is NoAlloc || right.alloc_id is NoAlloc,
    ensures
        res == unrelated_ptr_result(bin_op, left, right),
{
    match bin_op {
        BinOp::Eq => Ok(PrimVal::from_bool(false)),
        BinOp::Ne => Ok(PrimVal::from_bool(true)),
        BinOp::Lt | BinOp::Le | BinOp::Gt | BinOp::Ge => Err(EvalError::InvalidPointerMath),
        _ => {
            // exactly one operand converts to a plain integer: a genuine
            // pointer mixed with plain bits may not be read as raw data
            let l_int = left.to_int().is_ok();
            let r_int = right.to_int().is_ok();
            if l_int != r_int {
                Err(EvalError::ReadPointerAsBytes)
            } else {
                proof {
                    assert(false);
                }
                Err(EvalError::ReadPointerAsBytes)
            }
        }
    }
}

/// Returns the result of the specified operation on two typed operands, and
/// whether it overflowed.
///
/// The caller's contract (whose violation the interpreter treats as an
/// internal bug, not as an evaluation error): a shift's left operand is of
/// integer kind; integer division and remainder have a nonzero divisor at
/// the operand width; arithmetic and bitwise operations never meet two
/// genuine pointers of different allocations.
pub fn binary_op(
    bin_op: BinOp,
    left: PrimVal,
    left_kind: PrimValKind,
    right: PrimVal,
    right_kind: PrimValKind,
) -> (res: EvalResult<(PrimVal, bool)>)
    requires
        left.relocation != right.relocation && !bin_op.is_comparison() ==> left.relocation
            is NoAlloc || right.relocation is NoAlloc,
        left.relocation == right.relocation && bin_op.is_shift() ==> left_kind.is_int(),
        left.relocation == right.relocation && !bin_op.is_shift() && left_kind == right_kind
            && left_kind.is_int() && (bin_op is Div || bin_op is Rem) ==> kind_val(
            left_kind,
            right.bits,
        ) != 0,
    ensures
        res == binary_op_result(bin_op, left, left_kind, right, right_kind),
{
    // pointers into the same allocation fall through to the raw-pattern
    // comparison below, which then compares the offsets
    let left_ptr = left.to_ptr();
    let right_ptr = right.to_ptr();
    if left_ptr.alloc_id != right_ptr.alloc_id {
        return match unrelated_ptr_ops(bin_op, left_ptr, right_ptr) {
            Ok(v) => Ok((v, false)),
            Err(e) => Err(e),
        };
    }
    let l = left.bits;
    let r = right.bits;
    // shifts take their width from the left operand alone
    if bin_op.is_shift() {
        let (bits, of) = int_shift(bin_op, left_kind, l, r);
        return Ok((PrimVal::new(bits), of));
    }
    // no implicit conversion between kinds
    if left_kind != right_kind {
        return Err(EvalError::UnimplementedBinaryOp(bin_op, left, right));
    }
    if left_kind.is_float() && bin_op.is_comparison() {
        let verdict = if matches!(left_kind, PrimValKind::F32) {
            f32_compare_bits(bin_op, l, r)
        } else {
            f64_compare_bits(bin_op, l, r)
        };
        Ok((PrimVal::from_bool(verdict), false))
    } else if left_kind.is_float() && bin_op.is_arith() {
        Ok((PrimVal::new(float_arithmetic(bin_op, left_kind, l, r)), false))
    } else if bin_op.is_comparison() {
        let verdict = match bin_op {
            BinOp::Eq => l == r,
            BinOp::Ne => l != r,
            BinOp::Lt => l < r,
            BinOp::Le => l <= r,
            BinOp::Gt => l > r,
            _ => l >= r,
        };
        Ok((PrimVal::from_bool(verdict), false))
    } else if matches!(bin_op, BinOp::BitOr) {
        Ok((PrimVal::new(l | r), false))
    } else if matches!(bin_op, BinOp::BitAnd) {
        Ok((PrimVal::new(l & r), false))
    } else if matches!(bin_op, BinOp::BitXor) {
        Ok((PrimVal::new(l ^ r), false))
    } else if left_kind.is_int() && bin_op.is_arith() {
        let (bits, of) = int_arithmetic(bin_op, left_kind, l, r);
        Ok((PrimVal::new(bits), of))
    } else {
        Err(EvalError::UnimplementedBinaryOp(bin_op, left, right))
    }
}

/// The full verdict of `unary_op`: boolean complement, width-exact bitwise
/// complement, width-exact wraparound negation of the signed kinds, IEEE
/// sign flip of the float kinds, unimplemented otherwise.
pub open spec fn unary_op_result(un_op: UnOp, val: PrimVal, val_kind: PrimValKind) -> EvalResult<
    PrimVal,
> {
    if un_op is Not && val_kind is Bool {
        Ok(PrimVal::spec_new(if spec_bits_to_bool(val.bits) { 0 } else { 1 }))
    } else if un_op is Not && val_kind.is_int() {
        Ok(PrimVal::spec_new(not_result_bits(val_kind, val.bits)))
    } else if un_op is Neg && val_kind.is_signed_int() {
        Ok(PrimVal::spec_new(neg_result_bits(val_kind, val.bits)))
    } else if un_op is Neg && val_kind is F32 {
        Ok(PrimVal::spec_new(f32_neg_bits(val.bits)))
    } else if un_op is Neg && val_kind is F64 {
        Ok(PrimVal::spec_new(f64_neg_bits(val.bits)))
    } else {
        Err(EvalError::UnimplementedUnaryOp(un_op, val))
    }
}

/// Returns the result of the specified unary operation. Negating the
/// minimum signed value wraps back to itself; no overflow flag exists on
/// this path.
pub fn unary_op(un_op: UnOp, val: PrimVal, val_kind: PrimValKind) -> (res: EvalResult<PrimVal>)
    ensures
        res == unary_op_result(un_op, val, val_kind),
{
    if matches!(un_op, UnOp::Not) && matches!(val_kind, PrimValKind::Bool) {
        Ok(PrimVal::new(if bits_to_bool(val.bits) { 0 } else { 1 }))
    } else if matches!(un_op, UnOp::Not) && val_kind.is_int() {
        Ok(PrimVal::new(int_not(val_kind, val.bits)))
    } else if matches!(un_op, UnOp::Neg) && val_kind.is_signed_int() {
        Ok(PrimVal::new(int_neg(val_kind, val.bits)))
    } else if matches!(un_op, UnOp::Neg) && matches!(val_kind, PrimValKind::F32) {
        Ok(PrimVal::new((val.bits & 0xFFFF_FFFF) ^ 0x8000_0000))
    } else if matches!(un_op, UnOp::Neg) && matches!(val_kind, PrimValKind::F64) {
        Ok(PrimVal::new(val.bits ^ 0x8000_0000_0000_0000))
    } else {
        Err(EvalError::UnimplementedUnaryOp(un_op, val))
    }
}

} // verus!
