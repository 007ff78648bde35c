use primop::operator::binary_op;
use primop::ops::BinOp;
use primop::value::PrimVal;
use primop::value::PrimValKind;

fn f32v(x: f32) -> PrimVal {
    PrimVal::new(x.to_bits() as u64)
}

fn f64v(x: f64) -> PrimVal {
    PrimVal::new(x.to_bits())
}

#[test]
fn f32_nan_is_unordered() {
    let n = f32v(f32::NAN);
    let one = f32v(1.0);
    for op in [BinOp::Eq, BinOp::Lt, BinOp::Le, BinOp::Gt, BinOp::Ge] {
        let res = binary_op(op, n, PrimValKind::F32, one, PrimValKind::F32);
        assert_eq!(res, Ok((PrimVal::from_bool(false), false)));
    }
    let ne = binary_op(BinOp::Ne, n, PrimValKind::F32, one, PrimValKind::F32);
    assert_eq!(ne, Ok((PrimVal::from_bool(true), false)));
}

#[test]
fn f64_nan_is_unordered() {
    let n = f64v(f64::NAN);
    let one = f64v(1.0);
    for op in [BinOp::Eq, BinOp::Lt, BinOp::Le, BinOp::Gt, BinOp::Ge] {
        let res = binary_op(op, one, PrimValKind::F64, n, PrimValKind::F64);
        assert_eq!(res, Ok((PrimVal::from_bool(false), false)));
    }
    let ne = binary_op(BinOp::Ne, one, PrimValKind::F64, n, PrimValKind::F64);
    assert_eq!(ne, Ok((PrimVal::from_bool(true), false)));
}

#[test]
fn f32_signed_zeros_are_equal() {
    let pz = f32v(0.0);
    let nz = f32v(-0.0);
    let eq = binary_op(BinOp::Eq, pz, PrimValKind::F32, nz, PrimValKind::F32);
    assert_eq!(eq, Ok((PrimVal::from_bool(true), false)));
    let lt = binary_op(BinOp::Lt, nz, PrimValKind::F32, pz, PrimValKind::F32);
    assert_eq!(lt, Ok((PrimVal::from_bool(false), false)));
}

#[test]
fn f32_ordering_across_signs() {
    let cases = [
        (-1.5f32, 2.5f32, true),
        (-3.0, -2.0, true),
        (2.0, 3.0, true),
        (3.0, 2.0, false),
        (-2.0, -3.0, false),
        (2.5, -1.5, false),
    ];
    for (a, b, expect) in cases {
        let lt = binary_op(
            BinOp::Lt,
            f32v(a),
            PrimValKind::F32,
            f32v(b),
            PrimValKind::F32,
        );
        assert_eq!(lt, Ok((PrimVal::from_bool(expect), false)));
    }
}

#[test]
fn f64_le_and_ge() {
    let a = f64v(1.25);
    let b = f64v(1.25);
    let le = binary_op(BinOp::Le, a, PrimValKind::F64, b, PrimValKind::F64);
    assert_eq!(le, Ok((PrimVal::from_bool(true), false)));
    let ge = binary_op(BinOp::Ge, a, PrimValKind::F64, b, PrimValKind::F64);
    assert_eq!(ge, Ok((PrimVal::from_bool(true), false)));
    let c = f64v(-7.5);
    let le2 = binary_op(BinOp::Le, a, PrimValKind::F64, c, PrimValKind::F64);
    assert_eq!(le2, Ok((PrimVal::from_bool(false), false)));
}

#[test]
fn f32_arithmetic_exact_cases() {
    let cases = [
        (BinOp::Add, 1.5f32, 2.25f32, 3.75f32),
        (BinOp::Sub, 3.5, 1.25, 2.25),
        (BinOp::Mul, 1.5, 2.0, 3.0),
        (BinOp::Div, 1.0, 2.0, 0.5),
        (BinOp::Rem, 7.5, 2.0, 1.5),
    ];
    for (op, a, b, expect) in cases {
        let res = binary_op(op, f32v(a), PrimValKind::F32, f32v(b), PrimValKind::F32);
        assert_eq!(res, Ok((f32v(expect), false)));
    }
}

#[test]
fn f64_arithmetic_exact_cases() {
    let cases = [
        (BinOp::Add, 1.5f64, 2.25f64, 3.75f64),
        (BinOp::Sub, 3.5, 1.25, 2.25),
        (BinOp::Mul, 1.5, 2.0, 3.0),
        (BinOp::Div, 1.0, 2.0, 0.5),
        (BinOp::Rem, 7.5, 2.0, 1.5),
    ];
    for (op, a, b, expect) in cases {
        let res = binary_op(op, f64v(a), PrimValKind::F64, f64v(b), PrimValKind::F64);
        assert_eq!(res, Ok((f64v(expect), false)));
    }
}

#[test]
fn f32_division_by_zero_is_infinity() {
    let res = binary_op(
        BinOp::Div,
        f32v(1.0),
        PrimValKind::F32,
        f32v(0.0),
        PrimValKind::F32,
    );
    assert_eq!(res, Ok((f32v(f32::INFINITY), false)));
    let neg = binary_op(
        BinOp::Div,
        f32v(-1.0),
        PrimValKind::F32,
        f32v(0.0),
        PrimValKind::F32,
    );
    assert_eq!(neg, Ok((f32v(f32::NEG_INFINITY), false)));
}

#[test]
fn f64_zero_over_zero_is_nan() {
    let res = binary_op(
        BinOp::Div,
        f64v(0.0),
        PrimValKind::F64,
        f64v(0.0),
        PrimValKind::F64,
    )
    .unwrap();
    let bits = res.0.bits;
    let exp_all_ones = bits & 0x7FF0_0000_0000_0000 == 0x7FF0_0000_0000_0000;
    let mantissa_nonzero = bits & 0x000F_FFFF_FFFF_FFFF != 0;
    assert!(exp_all_ones && mantissa_nonzero);
    assert!(!res.1);
}
