//! The engine-facing value representation.
//!
//! One [`Value`] stands for one engine-native value crossing the boundary:
//! the marshalling layer pushes values of this type onto a call context's
//! stack and pops them back, converting to and from the canonical
//! primitive kinds. The two floating-point kinds are carried as their bit
//! patterns, which is all the canonical convention moves across the
//! boundary.
//!
//! The engine's collector cares which of these a heap slot may point into:
//! [`is_markable`] tells the tracing callback which stack slots must be
//! visited on a collection cycle.

use vstd::prelude::*;

verus! {

/// An engine-native value as seen by the marshalling layer, one variant
/// per interface-type kind.
#[derive(Debug)]
pub enum Value {
    /// The engine's "no value" (an export with no result, a payload-less
    /// settlement).
    Undefined,
    /// A boolean.
    Bool(bool),
    /// An unsigned 8-bit integer.
    U8(u8),
    /// An unsigned 16-bit integer.
    U16(u16),
    /// An unsigned 32-bit integer.
    U32(u32),
    /// An unsigned 64-bit integer.
    U64(u64),
    /// A signed 8-bit integer.
    S8(i8),
    /// A signed 16-bit integer.
    S16(i16),
    /// A signed 32-bit integer.
    S32(i32),
    /// A signed 64-bit integer.
    S64(i64),
    /// A Unicode scalar value.
    Char(char),
    /// A 32-bit float, carried as its bit pattern.
    F32Bits(u32),
    /// A 64-bit float, carried as its bit pattern.
    F64Bits(u64),
    /// A string.
    Text(String),
    /// A homogeneous sequence.
    List(Vec<Value>),
    /// A record; the elements are the fields in declared order.
    Record(Vec<Value>),
    /// A tuple; the elements are the members in declared order.
    Tuple(Vec<Value>),
    /// A variant: case discriminant plus the case's payload, if that case
    /// carries one.
    Variant { discriminant: u32, payload: Option<Box<Value>> },
    /// An enumeration case discriminant.
    EnumVal(u32),
    /// A flags value, one bit per flag.
    FlagsVal(u32),
    /// An option; the payload is present exactly for the some case.
    OptionVal(Option<Box<Value>>),
    /// A result: ok/error discriminant plus the payload, if the carried
    /// type is not empty.
    ResultVal { is_err: bool, payload: Option<Box<Value>> },
    /// A borrowed resource handle.
    Borrowed(u32),
    /// An owned resource handle.
    Owned(u32),
    /// A future handle.
    FutureVal(u32),
    /// A stream handle.
    StreamVal(u32),
}

/// Whether a value of this shape is backed by engine heap storage, so that
/// the collector must be pointed at it on every collection cycle.
/// Strings and the aggregate shapes are heap objects; everything else is
/// taken to cross the boundary as an engine immediate — booleans,
/// characters, numbers of every width, discriminants, flag bits and raw
/// handles. That is a representation assumption about the embedded
/// engine: one that boxes any of these on its heap (a 64-bit integer as
/// a heap-allocated big integer, say) must be given a widened predicate
/// here, or the trace plan would skip a live heap value.
pub open spec fn is_markable(v: Value) -> bool {
    match v {
        Value::Text(_) => true,
        Value::List(_) => true,
        Value::Record(_) => true,
        Value::Tuple(_) => true,
        Value::Variant { .. } => true,
        Value::OptionVal(_) => true,
        Value::ResultVal { .. } => true,
        _ => false,
    }
}

impl Value {
    /// Executable twin of [`is_markable`].
    pub fn markable(&self) -> (r: bool)
        ensures
            r == is_markable(*self),
    {
        match self {
            Value::Text(_) => true,
            Value::List(_) => true,
            Value::Record(_) => true,
            Value::Tuple(_) => true,
            Value::Variant { .. } => true,
            Value::OptionVal(_) => true,
            Value::ResultVal { .. } => true,
            _ => false,
        }
    }
}

} // verus!
