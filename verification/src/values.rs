//! The typed value representation marshalled between the embedding runtime's
//! raw calling convention and typed host callbacks.
//!
//! A raw runtime value is a kind tag together with 128 payload bits; the
//! tagged representation [`WasmVal`] carries the scalar of exactly one kind
//! (floating-point payloads are carried as their bit patterns). Conversion
//! from raw to tagged is total: every kind outside the fixed numeric set
//! collapses to [`WasmVal::NoneVal`], never an error.

use vstd::prelude::*;

verus! {

/// The kind tag of a raw runtime value.
///
/// The five numeric kinds each map to a tagged variant; the two reference
/// kinds are outside the marshalled set and collapse to [`WasmVal::NoneVal`].
#[derive(Clone, Copy, Debug, PartialEq, Eq, Structural)]
pub enum ValType {
    I32,
    I64,
    F32,
    F64,
    V128,
    FuncRef,
    ExternRef,
}

/// A raw marshalled value as the embedding runtime's calling convention
/// carries it: a kind tag plus 128 untyped payload bits. A scalar narrower
/// than 128 bits occupies the low bits of the payload.
#[derive(Clone, Copy, Debug)]
pub struct RawWasmValue {
    pub ty: ValType,
    pub bits: u128,
}

impl RawWasmValue {
    /// Pack a 32-bit integer scalar into a raw value of kind `I32`.
    pub fn from_i32(v: i32) -> (r: RawWasmValue)
        ensures
            r.ty == ValType::I32,
            r.bits == (v as u32) as u128,
    {
        RawWasmValue { ty: ValType::I32, bits: (v as u32) as u128 }
    }

    /// Pack a 64-bit integer scalar into a raw value of kind `I64`.
    pub fn from_i64(v: i64) -> (r: RawWasmValue)
        ensures
            r.ty == ValType::I64,
            r.bits == (v as u64) as u128,
    {
        RawWasmValue { ty: ValType::I64, bits: (v as u64) as u128 }
    }

    /// Pack a 32-bit float, given by its bit pattern, into a raw value of
    /// kind `F32`.
    pub fn from_f32_bits(v: u32) -> (r: RawWasmValue)
        ensures
            r.ty == ValType::F32,
            r.bits == v as u128,
    {
        RawWasmValue { ty: ValType::F32, bits: v as u128 }
    }

    /// Pack a 64-bit float, given by its bit pattern, into a raw value of
    /// kind `F64`.
    pub fn from_f64_bits(v: u64) -> (r: RawWasmValue)
        ensures
            r.ty == ValType::F64,
            r.bits == v as u128,
    {
        RawWasmValue { ty: ValType::F64, bits: v as u128 }
    }

    /// Pack a 128-bit vector scalar into a raw value of kind `V128`.
    pub fn from_v128(v: i128) -> (r: RawWasmValue)
        ensures
            r.ty == ValType::V128,
            r.bits == v as u128,
    {
        RawWasmValue { ty: ValType::V128, bits: v as u128 }
    }

    /// A raw value of a kind outside the marshalled numeric set, as the
    /// runtime produces for reference values.
    pub fn null_extern_ref() -> (r: RawWasmValue)
        ensures
            r.ty == ValType::ExternRef,
            r.bits == 0,
    {
        RawWasmValue { ty: ValType::ExternRef, bits: 0 }
    }

    /// Read the low 32 payload bits as a signed integer scalar.
    pub fn to_i32(&self) -> (r: i32)
        ensures
            r == (self.bits as u32) as i32,
    {
        (self.bits as u32) as i32
    }

    /// Read the low 64 payload bits as a signed integer scalar.
    pub fn to_i64(&self) -> (r: i64)
        ensures
            r == (self.bits as u64) as i64,
    {
        (self.bits as u64) as i64
    }

    /// Read the low 32 payload bits as a 32-bit float bit pattern.
    pub fn to_f32_bits(&self) -> (r: u32)
        ensures
            r == self.bits as u32,
    {
        self.bits as u32
    }

    /// Read the low 64 payload bits as a 64-bit float bit pattern.
    pub fn to_f64_bits(&self) -> (r: u64)
        ensures
            r == self.bits as u64,
    {
        self.bits as u64
    }

    /// Read the full payload as a 128-bit vector scalar.
    pub fn to_v128(&self) -> (r: i128)
        ensures
            r == self.bits as i128,
    {
        self.bits as i128
    }
}

/// A marshalled value with its kind made explicit: the tagged representation
/// handed to and returned by typed host callbacks. Float kinds carry their
/// bit patterns, so every payload is a plain scalar and equality is exact.
#[derive(Clone, Copy, Debug)]
pub enum WasmVal {
    I32(i32),
    I64(i64),
    F32(u32),
    F64(u64),
    V128(i128),
    NoneVal,
}

/// Whether two tagged values carry the same kind.
pub open spec fn same_kind(a: WasmVal, b: WasmVal) -> bool {
    match (a, b) {
        (WasmVal::I32(_), WasmVal::I32(_)) => true,
        (WasmVal::I64(_), WasmVal::I64(_)) => true,
        (WasmVal::F32(_), WasmVal::F32(_)) => true,
        (WasmVal::F64(_), WasmVal::F64(_)) => true,
        (WasmVal::V128(_), WasmVal::V128(_)) => true,
        (WasmVal::NoneVal, WasmVal::NoneVal) => true,
        _ => false,
    }
}

/// Per-kind equality of tagged values: equal kind and equal scalar; any two
/// values of different kinds, the `None` kind included, are unequal.
pub open spec fn eq_val(a: WasmVal, b: WasmVal) -> bool {
    match (a, b) {
        (WasmVal::I32(x), WasmVal::I32(y)) => x == y,
        (WasmVal::I64(x), WasmVal::I64(y)) => x == y,
        (WasmVal::F32(x), WasmVal::F32(y)) => x == y,
        (WasmVal::F64(x), WasmVal::F64(y)) => x == y,
        (WasmVal::V128(x), WasmVal::V128(y)) => x == y,
        (WasmVal::NoneVal, WasmVal::NoneVal) => true,
        _ => false,
    }
}

impl PartialEq for WasmVal {
    fn eq(&self, other: &Self) -> (r: bool) {
        match (self, other) {
            (WasmVal::I32(x), WasmVal::I32(y)) => *x == *y,
            (WasmVal::I64(x), WasmVal::I64(y)) => *x == *y,
            (WasmVal::F32(x), WasmVal::F32(y)) => *x == *y,
            (WasmVal::F64(x), WasmVal::F64(y)) => *x == *y,
            (WasmVal::V128(x), WasmVal::V128(y)) => *x == *y,
            (WasmVal::NoneVal, WasmVal::NoneVal) => true,
            _ => false,
        }
    }
}

impl Eq for WasmVal {

}

impl vstd::std_specs::cmp::PartialEqSpecImpl for WasmVal {
    open spec fn obeys_eq_spec() -> bool {
        true
    }

    open spec fn eq_spec(&self, other: &WasmVal) -> bool {
        eq_val(*self, *other)
    }
}

/// What converting a raw value to the tagged representation yields: the
/// scalar of the raw value's kind, read from the payload bits; any kind
/// outside the numeric set yields `None`.
pub open spec fn spec_from_raw(raw: RawWasmValue) -> WasmVal {
    match raw.ty {
        ValType::I32 => WasmVal::I32((raw.bits as u32) as i32),
        ValType::I64 => WasmVal::I64((raw.bits as u64) as i64),
        ValType::F32 => WasmVal::F32(raw.bits as u32),
        ValType::F64 => WasmVal::F64(raw.bits as u64),
        ValType::V128 => WasmVal::V128(raw.bits as i128),
        _ => WasmVal::NoneVal,
    }
}

impl From<RawWasmValue> for WasmVal {
    /// Total conversion from the raw representation: each numeric kind maps
    /// to its tagged variant, every other kind to `None`, never an error.
    fn from(raw_val: RawWasmValue) -> (r: WasmVal) {
        match raw_val.ty {
            ValType::I32 => WasmVal::I32(raw_val.to_i32()),
            ValType::I64 => WasmVal::I64(raw_val.to_i64()),
            ValType::F32 => WasmVal::F32(raw_val.to_f32_bits()),
            ValType::F64 => WasmVal::F64(raw_val.to_f64_bits()),
            ValType::V128 => WasmVal::V128(raw_val.to_v128()),
            _ => WasmVal::NoneVal,
        }
    }
}

impl vstd::std_specs::convert::FromSpecImpl<RawWasmValue> for WasmVal {
    open spec fn obeys_from_spec() -> bool {
        true
    }

    open spec fn from_spec(v: RawWasmValue) -> WasmVal {
        spec_from_raw(v)
    }
}

/// What converting a tagged value back to the raw representation yields:
/// the scalar packed into the payload bits under the matching kind tag;
/// `None`, which has no numeric kind, becomes a null reference value.
pub open spec fn spec_as_raw(v: WasmVal) -> RawWasmValue {
    match v {
        WasmVal::I32(x) => RawWasmValue { ty: ValType::I32, bits: (x as u32) as u128 },
        WasmVal::I64(x) => RawWasmValue { ty: ValType::I64, bits: (x as u64) as u128 },
        WasmVal::F32(x) => RawWasmValue { ty: ValType::F32, bits: x as u128 },
        WasmVal::F64(x) => RawWasmValue { ty: ValType::F64, bits: x as u128 },
        WasmVal::V128(x) => RawWasmValue { ty: ValType::V128, bits: x as u128 },
        WasmVal::NoneVal => RawWasmValue { ty: ValType::ExternRef, bits: 0 },
    }
}

impl WasmVal {
    /// Convert back to the raw representation the calling convention expects
    /// in its result slots.
    pub fn as_raw(&self) -> (r: RawWasmValue)
        ensures
            r == spec_as_raw(*self),
    {
        match self {
            WasmVal::I32(x) => RawWasmValue::from_i32(*x),
            WasmVal::I64(x) => RawWasmValue::from_i64(*x),
            WasmVal::F32(x) => RawWasmValue::from_f32_bits(*x),
            WasmVal::F64(x) => RawWasmValue::from_f64_bits(*x),
            WasmVal::V128(x) => RawWasmValue::from_v128(*x),
            WasmVal::NoneVal => RawWasmValue::null_extern_ref(),
        }
    }
}

/// Converting a tagged value to the raw representation and back recovers the
/// tagged value exactly: no scalar of any of the five numeric kinds is
/// disturbed by crossing the raw boundary, and `None` comes back as `None`.
pub proof fn lemma_tagged_raw_round_trip(v: WasmVal)
    ensures
        spec_from_raw(spec_as_raw(v)) == v,
{
    match v {
        WasmVal::I32(x) => {
            assert(((((x as u32) as u128) as u32) as i32) == x) by (bit_vector);
        },
        WasmVal::I64(x) => {
            assert(((((x as u64) as u128) as u64) as i64) == x) by (bit_vector);
        },
        WasmVal::F32(x) => {
            assert(((x as u128) as u32) == x) by (bit_vector);
        },
        WasmVal::F64(x) => {
            assert(((x as u128) as u64) == x) by (bit_vector);
        },
        WasmVal::V128(x) => {
            assert(((x as u128) as i128) == x) by (bit_vector);
        },
        WasmVal::NoneVal => {
        },
    }
}

/// A raw value converts to the `None` variant exactly when its kind lies
/// outside the fixed numeric set; no raw value is ever rejected.
pub proof fn lemma_unknown_kind_is_none(raw: RawWasmValue)
    ensures
        spec_from_raw(raw) is NoneVal <==> (raw.ty == ValType::FuncRef || raw.ty
            == ValType::ExternRef),
{
}

/// Tagged-value equality is reflexive.
pub proof fn lemma_eq_reflexive(v: WasmVal)
    ensures
        eq_val(v, v),
{
}

/// Tagged values of different kinds, the `None` kind included, are never
/// equal.
pub proof fn lemma_eq_kinds_differ(a: WasmVal, b: WasmVal)
    requires
        !same_kind(a, b),
    ensures
        !eq_val(a, b),
{
}

} // verus!
