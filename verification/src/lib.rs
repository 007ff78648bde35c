//! Operator evaluation core of an abstract-machine interpreter.
//!
//! A [`value::PrimVal`] is a 64-bit bit container; a [`value::PrimValKind`]
//! says how those bits are to be read (boolean, signed or unsigned integer of
//! width 8/16/32/64, IEEE-754 float of width 32/64, or pointer). The entry
//! points [`operator::binary_op`] and [`operator::unary_op`] evaluate one
//! operation of the fixed instruction set on such typed operands, reporting
//! the result bits together with an arithmetic-overflow flag, or a typed
//! failure ([`error::EvalError`]).

pub mod error;
pub mod float_arith;
pub mod float_bits;
pub mod int_arith;
pub mod laws;
pub mod operator;
pub mod ops;
pub mod value;
