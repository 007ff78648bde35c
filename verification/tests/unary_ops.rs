use primop::error::EvalError;
use primop::operator::unary_op;
use primop::ops::UnOp;
use primop::value::PrimVal;
use primop::value::PrimValKind;

#[test]
fn not_bool_flips_and_round_trips() {
    let t = PrimVal::from_bool(true);
    let once = unary_op(UnOp::Not, t, PrimValKind::Bool).unwrap();
    assert_eq!(once, PrimVal::new(0));
    let twice = unary_op(UnOp::Not, once, PrimValKind::Bool).unwrap();
    assert_eq!(twice, t);
}

#[test]
fn not_u8_complements_low_bits() {
    let x = PrimVal::new(0x0F);
    let once = unary_op(UnOp::Not, x, PrimValKind::U8).unwrap();
    assert_eq!(once, PrimVal::new(0xF0));
    let twice = unary_op(UnOp::Not, once, PrimValKind::U8).unwrap();
    assert_eq!(twice, x);
}

#[test]
fn not_i32_sign_extends() {
    let x = PrimVal::new(5);
    let once = unary_op(UnOp::Not, x, PrimValKind::I32).unwrap();
    assert_eq!(once, PrimVal::new((!5i32) as u64));
    let twice = unary_op(UnOp::Not, once, PrimValKind::I32).unwrap();
    assert_eq!(twice, x);
}

#[test]
fn not_u64_is_full_complement() {
    let x = PrimVal::new(0x0123_4567_89AB_CDEF);
    let once = unary_op(UnOp::Not, x, PrimValKind::U64).unwrap();
    assert_eq!(once, PrimVal::new(!0x0123_4567_89AB_CDEFu64));
}

#[test]
fn neg_i8_negates_and_round_trips() {
    let x = PrimVal::new(5);
    let once = unary_op(UnOp::Neg, x, PrimValKind::I8).unwrap();
    assert_eq!(once, PrimVal::new((-5i8) as u64));
    let twice = unary_op(UnOp::Neg, once, PrimValKind::I8).unwrap();
    assert_eq!(twice, x);
}

#[test]
fn neg_i8_min_wraps_to_itself() {
    let min = PrimVal::new(i8::MIN as u64);
    let once = unary_op(UnOp::Neg, min, PrimValKind::I8).unwrap();
    assert_eq!(once, min);
    let twice = unary_op(UnOp::Neg, once, PrimValKind::I8).unwrap();
    assert_eq!(twice, min);
}

#[test]
fn neg_i64_negates() {
    let x = PrimVal::new(123_456_789);
    let once = unary_op(UnOp::Neg, x, PrimValKind::I64).unwrap();
    assert_eq!(once, PrimVal::new((-123_456_789i64) as u64));
}

#[test]
fn neg_f32_zero_sets_sign_bit() {
    let z = PrimVal::new(0.0f32.to_bits() as u64);
    let res = unary_op(UnOp::Neg, z, PrimValKind::F32).unwrap();
    assert_eq!(res, PrimVal::new(0x8000_0000));
    assert_eq!(res.bits, (-0.0f32).to_bits() as u64);
}

#[test]
fn neg_f64_flips_sign_only() {
    let x = PrimVal::new(2.5f64.to_bits());
    let res = unary_op(UnOp::Neg, x, PrimValKind::F64).unwrap();
    assert_eq!(res, PrimVal::new((-2.5f64).to_bits()));
    // a NaN's sign bit flips too, magnitude untouched
    let n = PrimVal::new(f64::NAN.to_bits());
    let nres = unary_op(UnOp::Neg, n, PrimValKind::F64).unwrap();
    assert_eq!(nres.bits, f64::NAN.to_bits() ^ 0x8000_0000_0000_0000);
}

#[test]
fn neg_unsigned_is_unimplemented() {
    let x = PrimVal::new(5);
    let res = unary_op(UnOp::Neg, x, PrimValKind::U8);
    assert_eq!(res, Err(EvalError::UnimplementedUnaryOp(UnOp::Neg, x)));
}

#[test]
fn not_float_is_unimplemented() {
    let x = PrimVal::new(0x3F80_0000);
    let res = unary_op(UnOp::Not, x, PrimValKind::F32);
    assert_eq!(res, Err(EvalError::UnimplementedUnaryOp(UnOp::Not, x)));
}
