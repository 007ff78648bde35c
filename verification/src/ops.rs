//! The fixed instruction set: binary and unary operation selectors.
//!
//! Selectors are supplied by the upstream decoder and never constructed here.

use vstd::prelude::*;

verus! {

/// A binary operation of the interpreted instruction set.
#[derive(Clone, Copy, Debug, PartialEq, Eq, Structural)]
pub enum BinOp {
    Add,
    Sub,
    Mul,
    Div,
    Rem,
    BitOr,
    BitAnd,
    BitXor,
    Shl,
    Shr,
    Eq,
    Ne,
    Lt,
    Le,
    Gt,
    Ge,
}

impl BinOp {
    /// The comparison operators, the only ones defined on pointers into
    /// different allocations (and even then only `Eq` and `Ne` succeed).
    pub open spec fn is_comparison_spec(self) -> bool {
        self is Eq || self is Ne || self is Lt || self is Le || self is Gt || self is Ge
    }

    #[verifier::when_used_as_spec(is_comparison_spec)]
    pub fn is_comparison(self) -> (b: bool)
        ensures
            b == self.is_comparison_spec(),
    {
        matches!(
            self,
            BinOp::Eq | BinOp::Ne | BinOp::Lt | BinOp::Le | BinOp::Gt | BinOp::Ge
        )
    }

    /// The shift operators, whose right operand's kind does not constrain the
    /// result: only the left kind's width matters.
    pub open spec fn is_shift_spec(self) -> bool {
        self is Shl || self is Shr
    }

    #[verifier::when_used_as_spec(is_shift_spec)]
    pub fn is_shift(self) -> (b: bool)
        ensures
            b == self.is_shift_spec(),
    {
        matches!(self, BinOp::Shl | BinOp::Shr)
    }

    /// The arithmetic operators that track overflow on integer kinds.
    pub open spec fn is_arith_spec(self) -> bool {
        self is Add || self is Sub || self is Mul || self is Div || self is Rem
    }

    #[verifier::when_used_as_spec(is_arith_spec)]
    pub fn is_arith(self) -> (b: bool)
        ensures
            b == self.is_arith_spec(),
    {
        matches!(self, BinOp::Add | BinOp::Sub | BinOp::Mul | BinOp::Div | BinOp::Rem)
    }
}

/// A unary operation of the interpreted instruction set.
#[derive(Clone, Copy, Debug, PartialEq, Eq, Structural)]
pub enum UnOp {
    Not,
    Neg,
}

} // verus!
