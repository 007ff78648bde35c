//! Typed failures of the operator evaluator.

use vstd::prelude::*;
use crate::ops::{BinOp, UnOp};
use crate::value::PrimVal;

verus! {

/// A typed evaluation failure, returned to the interpreter for diagnostics.
#[derive(Clone, Copy, Debug, PartialEq, Eq, Structural)]
pub enum EvalError {
    /// The operator is not defined on this operand (pair): carries the
    /// operator and the operand bit containers for diagnostics.
    UnimplementedBinaryOp(BinOp, PrimVal, PrimVal),
    /// As above, for a unary operator.
    UnimplementedUnaryOp(UnOp, PrimVal),
    /// An ordered comparison was requested between pointers into different
    /// allocations; such an ordering is undefined.
    InvalidPointerMath,
    /// A genuine pointer was about to be read as plain integer bytes;
    /// pointer bit patterns are not portable data.
    ReadPointerAsBytes,
}

/// Result type of every evaluation entry point.
pub type EvalResult<T> = Result<T, EvalError>;

} // verus!
