use primop::error::EvalError;
use primop::operator::binary_op;
use primop::ops::BinOp;
use primop::value::PrimVal;
use primop::value::PrimValKind;

#[test]
fn add_u8_wraps_with_flag() {
    let res = binary_op(
        BinOp::Add,
        PrimVal::new(250),
        PrimValKind::U8,
        PrimVal::new(10),
        PrimValKind::U8,
    );
    assert_eq!(res, Ok((PrimVal::new(4), true)));
}

#[test]
fn div_i32_truncates() {
    let res = binary_op(
        BinOp::Div,
        PrimVal::new(7),
        PrimValKind::I32,
        PrimVal::new(2),
        PrimValKind::I32,
    );
    assert_eq!(res, Ok((PrimVal::new(3), false)));
}

#[test]
fn shr_i8_masks_large_amount() {
    let res = binary_op(
        BinOp::Shr,
        PrimVal::new((-8i8) as u64),
        PrimValKind::I8,
        PrimVal::new(100),
        PrimValKind::I8,
    );
    // 100 & 7 == 4; the shift is arithmetic at 8-bit width
    let expected = ((-8i8) >> 4) as u64;
    assert_eq!(res, Ok((PrimVal::new(expected), false)));
    let direct = binary_op(
        BinOp::Shr,
        PrimVal::new((-8i8) as u64),
        PrimValKind::I8,
        PrimVal::new(4),
        PrimValKind::I8,
    );
    assert_eq!(res, direct);
}

#[test]
fn add_i8_overflow_wraps() {
    let res = binary_op(
        BinOp::Add,
        PrimVal::new(100),
        PrimValKind::I8,
        PrimVal::new(100),
        PrimValKind::I8,
    );
    assert_eq!(res, Ok((PrimVal::new((-56i8) as u64), true)));
}

#[test]
fn sub_u16_underflow_wraps() {
    let res = binary_op(
        BinOp::Sub,
        PrimVal::new(0),
        PrimValKind::U16,
        PrimVal::new(1),
        PrimValKind::U16,
    );
    assert_eq!(res, Ok((PrimVal::new(0xFFFF), true)));
}

#[test]
fn mul_u64_overflow_wraps() {
    let res = binary_op(
        BinOp::Mul,
        PrimVal::new(u64::MAX),
        PrimValKind::U64,
        PrimVal::new(2),
        PrimValKind::U64,
    );
    assert_eq!(res, Ok((PrimVal::new(u64::MAX - 1), true)));
}

#[test]
fn div_min_by_minus_one_wraps() {
    let min = (i8::MIN) as u64;
    let m1 = (-1i8) as u64;
    let div = binary_op(
        BinOp::Div,
        PrimVal::new(min),
        PrimValKind::I8,
        PrimVal::new(m1),
        PrimValKind::I8,
    );
    assert_eq!(div, Ok((PrimVal::new(min), true)));
    let rem = binary_op(
        BinOp::Rem,
        PrimVal::new(min),
        PrimValKind::I8,
        PrimVal::new(m1),
        PrimValKind::I8,
    );
    assert_eq!(rem, Ok((PrimVal::new(0), true)));
}

#[test]
fn rem_i32_keeps_dividend_sign() {
    let res = binary_op(
        BinOp::Rem,
        PrimVal::new((-7i32) as u64),
        PrimValKind::I32,
        PrimVal::new(2),
        PrimValKind::I32,
    );
    assert_eq!(res, Ok((PrimVal::new((-1i32) as u64), false)));
}

#[test]
fn shl_u8_discards_high_bits() {
    let res = binary_op(
        BinOp::Shl,
        PrimVal::new(0x81),
        PrimValKind::U8,
        PrimVal::new(1),
        PrimValKind::U8,
    );
    assert_eq!(res, Ok((PrimVal::new(0x02), false)));
    // an amount of 9 is masked to 1, without a flag
    let masked = binary_op(
        BinOp::Shl,
        PrimVal::new(0x81),
        PrimValKind::U8,
        PrimVal::new(9),
        PrimValKind::U8,
    );
    assert_eq!(masked, res);
}

#[test]
fn shl_i16_sign_extends_result() {
    let res = binary_op(
        BinOp::Shl,
        PrimVal::new(0x4001),
        PrimValKind::I16,
        PrimVal::new(1),
        PrimValKind::I16,
    );
    // 0x4001 << 1 == 0x8002, negative at 16-bit width
    assert_eq!(res, Ok((PrimVal::new((-32766i16) as u64), false)));
}

#[test]
fn bitwise_on_raw_patterns() {
    let l = PrimVal::new(0xF0F0);
    let r = PrimVal::new(0x0FF0);
    let or = binary_op(BinOp::BitOr, l, PrimValKind::U32, r, PrimValKind::U32);
    assert_eq!(or, Ok((PrimVal::new(0xFFF0), false)));
    let and = binary_op(BinOp::BitAnd, l, PrimValKind::U32, r, PrimValKind::U32);
    assert_eq!(and, Ok((PrimVal::new(0x00F0), false)));
    let xor = binary_op(BinOp::BitXor, l, PrimValKind::U32, r, PrimValKind::U32);
    assert_eq!(xor, Ok((PrimVal::new(0xFF00), false)));
}

#[test]
fn unsigned_comparison_is_raw() {
    let lt = binary_op(
        BinOp::Lt,
        PrimVal::new(1),
        PrimValKind::U64,
        PrimVal::new(2),
        PrimValKind::U64,
    );
    assert_eq!(lt, Ok((PrimVal::from_bool(true), false)));
    let ge = binary_op(
        BinOp::Ge,
        PrimVal::new(2),
        PrimValKind::U64,
        PrimVal::new(2),
        PrimValKind::U64,
    );
    assert_eq!(ge, Ok((PrimVal::from_bool(true), false)));
}

#[test]
fn bool_equality() {
    let res = binary_op(
        BinOp::Eq,
        PrimVal::from_bool(true),
        PrimValKind::Bool,
        PrimVal::from_bool(true),
        PrimValKind::Bool,
    );
    assert_eq!(res, Ok((PrimVal::from_bool(true), false)));
}

#[test]
fn kind_mismatch_is_unimplemented() {
    let l = PrimVal::new(1);
    let r = PrimVal::new(2);
    let res = binary_op(BinOp::Add, l, PrimValKind::U8, r, PrimValKind::U16);
    assert_eq!(res, Err(EvalError::UnimplementedBinaryOp(BinOp::Add, l, r)));
}

#[test]
fn arithmetic_on_bool_is_unimplemented() {
    let l = PrimVal::from_bool(true);
    let r = PrimVal::from_bool(false);
    let res = binary_op(BinOp::Add, l, PrimValKind::Bool, r, PrimValKind::Bool);
    assert_eq!(res, Err(EvalError::UnimplementedBinaryOp(BinOp::Add, l, r)));
}
