//! Typed primitive values: a 64-bit bit container plus a scalar kind tag,
//! and the mathematical reading of a container at an integer kind.

use vstd::prelude::*;
use crate::error::{EvalError, EvalResult};

verus! {

/// The scalar kind tag governing how a container's bits are reinterpreted.
#[derive(Clone, Copy, Debug, PartialEq, Eq, Structural)]
pub enum PrimValKind {
    Bool,
    I8,
    I16,
    I32,
    I64,
    U8,
    U16,
    U32,
    U64,
    F32,
    F64,
    Ptr,
}

impl PrimValKind {
    /// One of the eight fixed-width integer kinds.
    pub open spec fn is_int_spec(self) -> bool {
        self is I8 || self is I16 || self is I32 || self is I64 || self is U8 || self is U16
            || self is U32 || self is U64
    }

    #[verifier::when_used_as_spec(is_int_spec)]
    pub fn is_int(self) -> (b: bool)
        ensures
            b == self.is_int_spec(),
    {
        matches!(
            self,
            PrimValKind::I8 | PrimValKind::I16 | PrimValKind::I32 | PrimValKind::I64
            | PrimValKind::U8 | PrimValKind::U16 | PrimValKind::U32 | PrimValKind::U64
        )
    }

    /// One of the four signed integer kinds.
    pub open spec fn is_signed_int_spec(self) -> bool {
        self is I8 || self is I16 || self is I32 || self is I64
    }

    #[verifier::when_used_as_spec(is_signed_int_spec)]
    pub fn is_signed_int(self) -> (b: bool)
        ensures
            b == self.is_signed_int_spec(),
    {
        matches!(self, PrimValKind::I8 | PrimValKind::I16 | PrimValKind::I32 | PrimValKind::I64)
    }

    /// One of the two float kinds.
    pub open spec fn is_float_spec(self) -> bool {
        self is F32 || self is F64
    }

    #[verifier::when_used_as_spec(is_float_spec)]
    pub fn is_float(self) -> (b: bool)
        ensures
            b == self.is_float_spec(),
    {
        matches!(self, PrimValKind::F32 | PrimValKind::F64)
    }
}

/// An opaque allocation identity. Two pointers are related iff their
/// identities are equal; the sentinel `NoAlloc` marks a plain integer that
/// merely travels through the pointer view.
#[derive(Clone, Copy, Debug, PartialEq, Eq, Structural)]
pub enum AllocId {
    NoAlloc,
    Alloc(u64),
}

/// A pointer: an allocation identity and an integer byte offset into it.
#[derive(Clone, Copy, Debug, PartialEq, Eq, Structural)]
pub struct Pointer {
    pub alloc_id: AllocId,
    pub offset: u64,
}

impl Pointer {
    pub fn new(alloc_id: AllocId, offset: u64) -> (p: Pointer)
        ensures
            p.alloc_id == alloc_id,
            p.offset == offset,
    {
        Pointer { alloc_id, offset }
    }

    /// The fallible integer reading: succeeds exactly when the value is not
    /// backed by a real allocation, in which case the offset is the integer.
    pub fn to_int(self) -> (r: EvalResult<u64>)
        ensures
            r is Ok <==> self.alloc_id is NoAlloc,
            self.alloc_id is NoAlloc ==> r->Ok_0 == self.offset,
            !(self.alloc_id is NoAlloc) ==> r->Err_0 == EvalError::ReadPointerAsBytes,
    {
        match self.alloc_id {
            AllocId::NoAlloc => Ok(self.offset),
            AllocId::Alloc(_) => Err(EvalError::ReadPointerAsBytes),
        }
    }
}

/// A typed primitive value: 64 bits of payload, zero/sign-extended (or, for
/// floats, reinterpreted) into the container, plus the allocation identity it
/// points into (`NoAlloc` for every non-pointer value).
#[derive(Clone, Copy, Debug, PartialEq, Eq, Structural)]
pub struct PrimVal {
    pub bits: u64,
    pub relocation: AllocId,
}

impl PrimVal {
    /// A plain value holding `bits` verbatim, backed by no allocation.
    pub open spec fn spec_new(bits: u64) -> PrimVal {
        PrimVal { bits, relocation: AllocId::NoAlloc }
    }

    #[verifier::when_used_as_spec(spec_new)]
    pub fn new(bits: u64) -> (v: PrimVal)
        ensures
            v == PrimVal::spec_new(bits),
    {
        PrimVal { bits, relocation: AllocId::NoAlloc }
    }

    /// A boolean result: bits 1 for true, 0 for false.
    pub open spec fn spec_from_bool(b: bool) -> PrimVal {
        PrimVal { bits: if b { 1 } else { 0 }, relocation: AllocId::NoAlloc }
    }

    #[verifier::when_used_as_spec(spec_from_bool)]
    pub fn from_bool(b: bool) -> (v: PrimVal)
        ensures
            v == PrimVal::spec_from_bool(b),
    {
        PrimVal { bits: if b { 1 } else { 0 }, relocation: AllocId::NoAlloc }
    }

    /// A genuine pointer value: offset in the container, identity alongside.
    pub fn from_ptr(ptr: Pointer) -> (v: PrimVal)
        ensures
            v.bits == ptr.offset,
            v.relocation == ptr.alloc_id,
    {
        PrimVal { bits: ptr.offset, relocation: ptr.alloc_id }
    }

    /// The pointer view of any value: a plain integer reads as an offset into
    /// the sentinel "no allocation", so integer/pointer mixed comparisons can
    /// share the pointer comparison path.
    pub open spec fn spec_to_ptr(self) -> Pointer {
        Pointer { alloc_id: self.relocation, offset: self.bits }
    }

    #[verifier::when_used_as_spec(spec_to_ptr)]
    pub fn to_ptr(self) -> (p: Pointer)
        ensures
            p == self.spec_to_ptr(),
    {
        Pointer { alloc_id: self.relocation, offset: self.bits }
    }
}

/// Reads a 1-bit pattern as a boolean: the low bit.
pub open spec fn spec_bits_to_bool(bits: u64) -> bool {
    bits & 1 == 1
}

#[verifier::when_used_as_spec(spec_bits_to_bool)]
pub fn bits_to_bool(bits: u64) -> (b: bool)
    ensures
        b == spec_bits_to_bool(bits),
{
    bits & 1 == 1
}

/// 2^width of an integer kind (1 for the non-integer kinds, on which the
/// integer reading is never used).
pub open spec fn kind_modulus(k: PrimValKind) -> int {
    match k {
        PrimValKind::I8 | PrimValKind::U8 => 0x100,
        PrimValKind::I16 | PrimValKind::U16 => 0x1_0000,
        PrimValKind::I32 | PrimValKind::U32 => 0x1_0000_0000,
        PrimValKind::I64 | PrimValKind::U64 => 0x1_0000_0000_0000_0000,
        _ => 1,
    }
}

/// Least representable value of an integer kind.
pub open spec fn int_min(k: PrimValKind) -> int {
    if k.is_signed_int() {
        -(kind_modulus(k) / 2)
    } else {
        0
    }
}

/// Greatest representable value of an integer kind.
pub open spec fn int_max(k: PrimValKind) -> int {
    if k.is_signed_int() {
        kind_modulus(k) / 2 - 1
    } else {
        kind_modulus(k) - 1
    }
}

/// Reduce an exact integer into kind `k`'s range: two's-complement
/// wraparound modulo 2^width.
pub open spec fn wrap_val(k: PrimValKind, x: int) -> int {
    let t = x % kind_modulus(k);
    if k.is_signed_int() && t >= kind_modulus(k) / 2 {
        t - kind_modulus(k)
    } else {
        t
    }
}

/// The mathematical value of a container read at integer kind `k`: the low
/// `width` bits, sign-interpreted for the signed kinds.
pub open spec fn kind_val(k: PrimValKind, bits: u64) -> int {
    wrap_val(k, bits as int)
}

/// The canonical container of value `v` of an integer kind: `v`
/// zero-extended if nonnegative, sign-extended (two's complement in 64 bits)
/// if negative. Meaningful for `v` within the kind's range.
pub open spec fn container_bits(v: int) -> u64 {
    if v < 0 {
        (v + 0x1_0000_0000_0000_0000) as u64
    } else {
        v as u64
    }
}

/// The container invariant of a well-formed typed value: the bits are the
/// value's canonical zero/sign extension into 64 bits.
pub open spec fn is_well_formed(k: PrimValKind, bits: u64) -> bool {
    match k {
        PrimValKind::Bool => bits == 0 || bits == 1,
        PrimValKind::F32 => bits <= 0xFFFF_FFFF,
        PrimValKind::F64 | PrimValKind::Ptr => true,
        _ => bits == container_bits(kind_val(k, bits)),
    }
}

} // verus!
