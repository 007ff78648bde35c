//! IEEE-754 arithmetic on the bit patterns held in the containers, done in
//! software by the `rustc_apfloat` crate (round to nearest, ties to even —
//! `%` is the C `fmod`). Each operation's result is a function of the
//! operand bits alone; it is named, not spelled out.

use vstd::prelude::*;
use rustc_apfloat::Float;
use rustc_apfloat::ieee::Double;
use rustc_apfloat::ieee::Single;
use crate::ops::BinOp;
use crate::value::PrimValKind;

verus! {

pub uninterp spec fn f32_add_bits(l: u64, r: u64) -> u64;

pub uninterp spec fn f32_sub_bits(l: u64, r: u64) -> u64;

pub uninterp spec fn f32_mul_bits(l: u64, r: u64) -> u64;

pub uninterp spec fn f32_div_bits(l: u64, r: u64) -> u64;

pub uninterp spec fn f32_rem_bits(l: u64, r: u64) -> u64;

pub uninterp spec fn f64_add_bits(l: u64, r: u64) -> u64;

pub uninterp spec fn f64_sub_bits(l: u64, r: u64) -> u64;

pub uninterp spec fn f64_mul_bits(l: u64, r: u64) -> u64;

pub uninterp spec fn f64_div_bits(l: u64, r: u64) -> u64;

pub uninterp spec fn f64_rem_bits(l: u64, r: u64) -> u64;

/// Relies on rustc_apfloat::ieee::Single's Add (IEEE-754 binary32 addition,
/// round to nearest even): a 32-bit result determined by the operand bits.
#[verifier::external_body]
fn single_add(l: u64, r: u64) -> (res: u64)
    ensures
        res == f32_add_bits(l, r),
        res <= 0xFFFF_FFFF,
{
    let a = Single::from_bits((l & 0xFFFF_FFFF) as u128);
    let b = Single::from_bits((r & 0xFFFF_FFFF) as u128);
    (a + b).value.to_bits() as u64
}

/// Relies on rustc_apfloat::ieee::Single's Sub (IEEE-754 binary32
/// subtraction): a 32-bit result determined by the operand bits.
#[verifier::external_body]
fn single_sub(l: u64, r: u64) -> (res: u64)
    ensures
        res == f32_sub_bits(l, r),
        res <= 0xFFFF_FFFF,
{
    let a = Single::from_bits((l & 0xFFFF_FFFF) as u128);
    let b = Single::from_bits((r & 0xFFFF_FFFF) as u128);
    (a - b).value.to_bits() as u64
}

/// Relies on rustc_apfloat::ieee::Single's Mul (IEEE-754 binary32
/// multiplication): a 32-bit result determined by the operand bits.
#[verifier::external_body]
fn single_mul(l: u64, r: u64) -> (res: u64)
    ensures
        res == f32_mul_bits(l, r),
        res <= 0xFFFF_FFFF,
{
    let a = Single::from_bits((l & 0xFFFF_FFFF) as u128);
    let b = Single::from_bits((r & 0xFFFF_FFFF) as u128);
    (a * b).value.to_bits() as u64
}

/// Relies on rustc_apfloat::ieee::Single's Div (IEEE-754 binary32 division;
/// x/0 is a signed infinity, 0/0 a NaN): a 32-bit result determined by the
/// operand bits.
#[verifier::external_body]
fn single_div(l: u64, r: u64) -> (res: u64)
    ensures
        res == f32_div_bits(l, r),
        res <= 0xFFFF_FFFF,
{
    let a = Single::from_bits((l & 0xFFFF_FFFF) as u128);
    let b = Single::from_bits((r & 0xFFFF_FFFF) as u128);
    (a / b).value.to_bits() as u64
}

/// Relies on rustc_apfloat::ieee::Single's Rem, the C fmod (truncating
/// remainder, as the native `%`): a 32-bit result determined by the operand
/// bits.
#[verifier::external_body]
fn single_rem(l: u64, r: u64) -> (res: u64)
    ensures
        res == f32_rem_bits(l, r),
        res <= 0xFFFF_FFFF,
{
    let a = Single::from_bits((l & 0xFFFF_FFFF) as u128);
    let b = Single::from_bits((r & 0xFFFF_FFFF) as u128);
    (a % b).value.to_bits() as u64
}

/// Relies on rustc_apfloat::ieee::Double's Add (IEEE-754 binary64 addition,
/// round to nearest even): a result determined by the operand bits.
#[verifier::external_body]
fn double_add(l: u64, r: u64) -> (res: u64)
    ensures
        res == f64_add_bits(l, r),
{
    let a = Double::from_bits(l as u128);
    let b = Double::from_bits(r as u128);
    (a + b).value.to_bits() as u64
}

/// Relies on rustc_apfloat::ieee::Double's Sub (IEEE-754 binary64
/// subtraction): a result determined by the operand bits.
#[verifier::external_body]
fn double_sub(l: u64, r: u64) -> (res: u64)
    ensures
        res == f64_sub_bits(l, r),
{
    let a = Double::from_bits(l as u128);
    let b = Double::from_bits(r as u128);
    (a - b).value.to_bits() as u64
}

/// Relies on rustc_apfloat::ieee::Double's Mul (IEEE-754 binary64
/// multiplication): a result determined by the operand bits.
#[verifier::external_body]
fn double_mul(l: u64, r: u64) -> (res: u64)
    ensures
        res == f64_mul_bits(l, r),
{
    let a = Double::from_bits(l as u128);
    let b = Double::from_bits(r as u128);
    (a * b).value.to_bits() as u64
}

/// Relies on rustc_apfloat::ieee::Double's Div (IEEE-754 binary64 division;
/// x/0 is a signed infinity, 0/0 a NaN): a result determined by the operand
/// bits.
#[verifier::external_body]
fn double_div(l: u64, r: u64) -> (res: u64)
    ensures
        res == f64_div_bits(l, r),
{
    let a = Double::from_bits(l as u128);
    let b = Double::from_bits(r as u128);
    (a / b).value.to_bits() as u64
}

/// Relies on rustc_apfloat::ieee::Double's Rem, the C fmod (truncating
/// remainder, as the native `%`): a result determined by the operand bits.
#[verifier::external_body]
fn double_rem(l: u64, r: u64) -> (res: u64)
    ensures
        res == f64_rem_bits(l, r),
{
    let a = Double::from_bits(l as u128);
    let b = Double::from_bits(r as u128);
    (a % b).value.to_bits() as u64
}

/// The result container of float arithmetic at a float kind.
pub open spec fn float_arith_bits(op: BinOp, k: PrimValKind, l: u64, r: u64) -> u64 {
    match (op, k) {
        (BinOp::Add, PrimValKind::F32) => f32_add_bits(l, r),
        (BinOp::Sub, PrimValKind::F32) => f32_sub_bits(l, r),
        (BinOp::Mul, PrimValKind::F32) => f32_mul_bits(l, r),
        (BinOp::Div, PrimValKind::F32) => f32_div_bits(l, r),
        (BinOp::Rem, PrimValKind::F32) => f32_rem_bits(l, r),
        (BinOp::Add, PrimValKind::F64) => f64_add_bits(l, r),
        (BinOp::Sub, PrimValKind::F64) => f64_sub_bits(l, r),
        (BinOp::Mul, PrimValKind::F64) => f64_mul_bits(l, r),
        (BinOp::Div, PrimValKind::F64) => f64_div_bits(l, r),
        (BinOp::Rem, PrimValKind::F64) => f64_rem_bits(l, r),
        _ => 0,
    }
}

/// IEEE arithmetic on float containers. Float overflow manifests as an
/// infinity, never as the flag, so no flag is produced here.
pub fn float_arithmetic(op: BinOp, k: PrimValKind, l: u64, r: u64) -> (res: u64)
    requires
        op.is_arith(),
        k.is_float(),
    ensures
        res == float_arith_bits(op, k, l, r),
        k is F32 ==> res <= 0xFFFF_FFFF,
{
    match (op, k) {
        (BinOp::Add, PrimValKind::F32) => single_add(l, r),
        (BinOp::Sub, PrimValKind::F32) => single_sub(l, r),
        (BinOp::Mul, PrimValKind::F32) => single_mul(l, r),
        (BinOp::Div, PrimValKind::F32) => single_div(l, r),
        (BinOp::Rem, PrimValKind::F32) => single_rem(l, r),
        (BinOp::Add, PrimValKind::F64) => double_add(l, r),
        (BinOp::Sub, PrimValKind::F64) => double_sub(l, r),
        (BinOp::Mul, PrimValKind::F64) => double_mul(l, r),
        (BinOp::Div, PrimValKind::F64) => double_div(l, r),
        (BinOp::Rem, PrimValKind::F64) => double_rem(l, r),
        _ => {
            proof {
                assert(false);
            }
            0
        }
    }
}

} // verus!
