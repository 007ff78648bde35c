use primop::error::EvalError;
use primop::operator::binary_op;
use primop::ops::BinOp;
use primop::value::AllocId;
use primop::value::Pointer;
use primop::value::PrimVal;
use primop::value::PrimValKind;

fn ptr(alloc: u64, offset: u64) -> PrimVal {
    PrimVal::from_ptr(Pointer::new(AllocId::Alloc(alloc), offset))
}

#[test]
fn pointer_equals_itself() {
    let p = ptr(1, 16);
    let res = binary_op(BinOp::Eq, p, PrimValKind::Ptr, p, PrimValKind::Ptr);
    assert_eq!(res, Ok((PrimVal::from_bool(true), false)));
}

#[test]
fn cross_allocation_ordering_fails() {
    let p = ptr(1, 0);
    let q = ptr(2, 0);
    for op in [BinOp::Lt, BinOp::Le, BinOp::Gt, BinOp::Ge] {
        let res = binary_op(op, p, PrimValKind::Ptr, q, PrimValKind::Ptr);
        assert_eq!(res, Err(EvalError::InvalidPointerMath));
    }
}

#[test]
fn cross_allocation_eq_ne_never_fail() {
    let p = ptr(1, 8);
    let q = ptr(2, 8);
    let ne = binary_op(BinOp::Ne, p, PrimValKind::Ptr, q, PrimValKind::Ptr);
    assert_eq!(ne, Ok((PrimVal::from_bool(true), false)));
    let eq = binary_op(BinOp::Eq, p, PrimValKind::Ptr, q, PrimValKind::Ptr);
    assert_eq!(eq, Ok((PrimVal::from_bool(false), false)));
    // also when one side is a plain integer, not convertible to the other's
    // allocation
    let i = PrimVal::new(8);
    let ne2 = binary_op(BinOp::Ne, p, PrimValKind::Ptr, i, PrimValKind::U64);
    assert_eq!(ne2, Ok((PrimVal::from_bool(true), false)));
    let eq2 = binary_op(BinOp::Eq, p, PrimValKind::Ptr, i, PrimValKind::U64);
    assert_eq!(eq2, Ok((PrimVal::from_bool(false), false)));
}

#[test]
fn pointer_integer_mix_rejected_for_arithmetic() {
    let p = ptr(1, 8);
    let i = PrimVal::new(8);
    let res = binary_op(BinOp::Add, p, PrimValKind::Ptr, i, PrimValKind::U64);
    assert_eq!(res, Err(EvalError::ReadPointerAsBytes));
    let res2 = binary_op(BinOp::BitAnd, i, PrimValKind::U64, p, PrimValKind::Ptr);
    assert_eq!(res2, Err(EvalError::ReadPointerAsBytes));
}

#[test]
fn same_allocation_compares_offsets() {
    let p1 = ptr(3, 8);
    let p2 = ptr(3, 16);
    let lt = binary_op(BinOp::Lt, p1, PrimValKind::Ptr, p2, PrimValKind::Ptr);
    assert_eq!(lt, Ok((PrimVal::from_bool(true), false)));
    let gt = binary_op(BinOp::Gt, p1, PrimValKind::Ptr, p2, PrimValKind::Ptr);
    assert_eq!(gt, Ok((PrimVal::from_bool(false), false)));
}
