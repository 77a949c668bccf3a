//! Typed conversions between native values and the any-objects of the
//! scripting runtime on the other side of the foreign bridge.
//!
//! A [`HostValue`] models what the adapter may write across the boundary and
//! what it may read back: the scripting runtime's null, its integers and
//! floats, and the handles of the adapter's own objects. Numeric conversion
//! is driven by a declared [`ValueType`], exactly as the host's typed APIs
//! demand it.

use vstd::prelude::*;

use crate::error::Error;
use crate::externref::ExternRef;
use crate::func::Func;
use crate::global::Global;
use crate::memory::Memory;
use crate::table::Table;
use crate::value::{ty_spec, Extern, Value, ValueType};

verus! {

/// A scripting-runtime any-object, as far as the adapter reads or writes it.
///
/// Integers are arbitrary-precision on the other side, so one variant covers
/// both integer value types, range-checked on extraction; floats keep the
/// width they were written with, as their bit pattern.
#[derive(Debug)]
pub enum HostValue {
    /// The scripting runtime's null.
    Null,
    /// A scripting-runtime integer.
    Int(i64),
    /// A scripting-runtime float written with 32-bit width: its bit pattern.
    F32(u32),
    /// A scripting-runtime float written with 64-bit width: its bit pattern.
    F64(u64),
    /// A host callable.
    Func(Func),
    /// The opaque token of a store-scoped payload.
    Extern(ExternRef),
    /// A host memory object.
    Memory(Memory),
    /// A host table object.
    Table(Table),
    /// A host global object.
    Global(Global),
}

impl HostValue {
    /// An exact copy of the any-object.
    pub fn duplicate(&self) -> (r: HostValue)
        ensures
            r == *self,
    {
        match self {
            HostValue::Null => HostValue::Null,
            HostValue::Int(x) => HostValue::Int(*x),
            HostValue::F32(b) => HostValue::F32(*b),
            HostValue::F64(b) => HostValue::F64(*b),
            HostValue::Func(f) => HostValue::Func(f.duplicate()),
            HostValue::Extern(r) => HostValue::Extern(*r),
            HostValue::Memory(m) => HostValue::Memory(*m),
            HostValue::Table(t) => HostValue::Table(*t),
            HostValue::Global(g) => HostValue::Global(*g),
        }
    }
}

/// What writing a typed value across the boundary produces.
pub open spec fn to_foreign_spec(v: Value) -> HostValue {
    match v {
        Value::I32(x) => HostValue::Int(x as i64),
        Value::I64(x) => HostValue::Int(x),
        Value::F32(b) => HostValue::F32(b),
        Value::F64(b) => HostValue::F64(b),
        Value::FuncRef(Some(f)) => HostValue::Func(f),
        Value::FuncRef(None) => HostValue::Null,
        Value::ExternRef(Some(r)) => HostValue::Extern(r),
        Value::ExternRef(None) => HostValue::Null,
    }
}

/// What extracting an any-object at a declared type returns, with no store
/// context at hand: numeric extraction succeeds exactly when the object is a
/// numeric of that shape (integers range-checked, floats at their written
/// width), and reference types are refused, since no carrier can be
/// rehydrated outside a module-export or explicit construction path.
pub open spec fn from_foreign_spec(h: HostValue, t: ValueType) -> Result<Value, Error> {
    match t {
        ValueType::I32 => match h {
            HostValue::Int(x) => if i32::MIN <= x <= i32::MAX {
                Ok(Value::I32(x as i32))
            } else {
                Err(Error::ConversionError)
            },
            _ => Err(Error::ConversionError),
        },
        ValueType::I64 => match h {
            HostValue::Int(x) => Ok(Value::I64(x)),
            _ => Err(Error::ConversionError),
        },
        ValueType::F32 => match h {
            HostValue::F32(b) => Ok(Value::F32(b)),
            _ => Err(Error::ConversionError),
        },
        ValueType::F64 => match h {
            HostValue::F64(b) => Ok(Value::F64(b)),
            _ => Err(Error::ConversionError),
        },
        ValueType::FuncRef => Err(Error::ConversionError),
        ValueType::ExternRef => Err(Error::ConversionError),
    }
}

/// What extracting an any-object at a declared type returns inside a store
/// context with identity `store_id`: numerics as without context, and the
/// reference types rehydrated, provided an extern token was minted by this
/// very store.
pub open spec fn rehydrate_spec(h: HostValue, t: ValueType, store_id: u64) -> Result<
    Value,
    Error,
> {
    match t {
        ValueType::FuncRef => match h {
            HostValue::Func(f) => Ok(Value::FuncRef(Some(f))),
            HostValue::Null => Ok(Value::FuncRef(None)),
            _ => Err(Error::ConversionError),
        },
        ValueType::ExternRef => match h {
            HostValue::Extern(r) => if r.store_id == store_id {
                Ok(Value::ExternRef(Some(r)))
            } else {
                Err(Error::CrossStore)
            },
            HostValue::Null => Ok(Value::ExternRef(None)),
            _ => Err(Error::ConversionError),
        },
        _ => from_foreign_spec(h, t),
    }
}

/// Whether an any-object inhabits a declared type, as the host's own type
/// checks see it: numerics by shape, reference types by a matching handle or
/// null.
pub open spec fn foreign_matches(h: HostValue, t: ValueType) -> bool {
    match t {
        ValueType::I32 => h matches HostValue::Int(x) && i32::MIN <= x <= i32::MAX,
        ValueType::I64 => h matches HostValue::Int(_),
        ValueType::F32 => h matches HostValue::F32(_),
        ValueType::F64 => h matches HostValue::F64(_),
        ValueType::FuncRef => h matches HostValue::Func(_) || h matches HostValue::Null,
        ValueType::ExternRef => h matches HostValue::Extern(_) || h matches HostValue::Null,
    }
}

/// Whether an any-object inhabits a declared type, exactly as
/// [`foreign_matches`] states it.
pub fn host_matches(h: &HostValue, t: ValueType) -> (r: bool)
    ensures
        r == foreign_matches(*h, t),
{
    match t {
        ValueType::I32 => match h {
            HostValue::Int(x) => i32::MIN as i64 <= *x && *x <= i32::MAX as i64,
            _ => false,
        },
        ValueType::I64 => matches!(h, HostValue::Int(_)),
        ValueType::F32 => matches!(h, HostValue::F32(_)),
        ValueType::F64 => matches!(h, HostValue::F64(_)),
        ValueType::FuncRef => matches!(h, HostValue::Func(_)) || matches!(h, HostValue::Null),
        ValueType::ExternRef => matches!(h, HostValue::Extern(_)) || matches!(h, HostValue::Null),
    }
}

/// Whether every extern reference inside the value was minted by the store
/// with identity `store_id`.
pub open spec fn carrier_in_store(v: Value, store_id: u64) -> bool {
    match v {
        Value::ExternRef(Some(r)) => r.store_id == store_id,
        _ => true,
    }
}

impl Value {
    /// Writes this value across the boundary: numerics become scripting
    /// numerics, carriers hand over their host handle or token, and a null
    /// carrier becomes the scripting null.
    pub fn to_foreign(&self) -> (r: HostValue)
        ensures
            r == to_foreign_spec(*self),
    {
        match self {
            Value::I32(x) => HostValue::Int(*x as i64),
            Value::I64(x) => HostValue::Int(*x),
            Value::F32(b) => HostValue::F32(*b),
            Value::F64(b) => HostValue::F64(*b),
            Value::FuncRef(Some(f)) => HostValue::Func(f.duplicate()),
            Value::FuncRef(None) => HostValue::Null,
            Value::ExternRef(Some(r)) => HostValue::Extern(*r),
            Value::ExternRef(None) => HostValue::Null,
        }
    }

    /// Extracts an any-object at the declared type, outside of any store
    /// context. See [`from_foreign_spec`] for exactly when this succeeds.
    pub fn from_foreign_typed(h: &HostValue, t: ValueType) -> (r: Result<Value, Error>)
        ensures
            r == from_foreign_spec(*h, t),
    {
        match t {
            ValueType::I32 => match h {
                HostValue::Int(x) => if i32::MIN as i64 <= *x && *x <= i32::MAX as i64 {
                    Ok(Value::I32(*x as i32))
                } else {
                    Err(Error::ConversionError)
                },
                _ => Err(Error::ConversionError),
            },
            ValueType::I64 => match h {
                HostValue::Int(x) => Ok(Value::I64(*x)),
                _ => Err(Error::ConversionError),
            },
            ValueType::F32 => match h {
                HostValue::F32(b) => Ok(Value::F32(*b)),
                _ => Err(Error::ConversionError),
            },
            ValueType::F64 => match h {
                HostValue::F64(b) => Ok(Value::F64(*b)),
                _ => Err(Error::ConversionError),
            },
            ValueType::FuncRef => Err(Error::ConversionError),
            ValueType::ExternRef => Err(Error::ConversionError),
        }
    }

    /// Extracts an any-object at the declared type inside the store context
    /// with identity `store_id`, rehydrating carriers. See
    /// [`rehydrate_spec`] for exactly when this succeeds.
    pub fn rehydrate_typed(h: &HostValue, t: ValueType, store_id: u64) -> (r: Result<
        Value,
        Error,
    >)
        ensures
            r == rehydrate_spec(*h, t, store_id),
    {
        match t {
            ValueType::FuncRef => match h {
                HostValue::Func(f) => Ok(Value::FuncRef(Some(f.duplicate()))),
                HostValue::Null => Ok(Value::FuncRef(None)),
                _ => Err(Error::ConversionError),
            },
            ValueType::ExternRef => match h {
                HostValue::Extern(r) => if r.store_id == store_id {
                    Ok(Value::ExternRef(Some(*r)))
                } else {
                    Err(Error::CrossStore)
                },
                HostValue::Null => Ok(Value::ExternRef(None)),
                _ => Err(Error::ConversionError),
            },
            _ => Value::from_foreign_typed(h, t),
        }
    }
}

impl Extern {
    /// Writes this handle across the boundary: each kind hands over the host
    /// object it wraps.
    pub fn to_foreign(&self) -> (r: HostValue)
        ensures
            r == extern_to_foreign_spec(*self),
    {
        match self {
            Extern::Func(f) => HostValue::Func(f.duplicate()),
            Extern::Global(g) => HostValue::Global(*g),
            Extern::Memory(m) => HostValue::Memory(*m),
            Extern::Table(t) => HostValue::Table(*t),
        }
    }
}

/// What writing a typed item handle across the boundary produces.
pub open spec fn extern_to_foreign_spec(e: Extern) -> HostValue {
    match e {
        Extern::Func(f) => HostValue::Func(f),
        Extern::Global(g) => HostValue::Global(g),
        Extern::Memory(m) => HostValue::Memory(m),
        Extern::Table(t) => HostValue::Table(t),
    }
}

/// A numeric value written across the boundary reads back unchanged at its
/// own type.
pub proof fn lemma_numeric_round_trip(v: Value)
    requires
        ty_spec(v).is_numeric(),
    ensures
        from_foreign_spec(to_foreign_spec(v), ty_spec(v)) == Ok::<Value, Error>(v),
{
}

/// Any value written across the boundary reads back unchanged at its own
/// type inside the store it belongs to: numerics as such, and carriers
/// rehydrated to the same handle or token.
pub proof fn lemma_round_trip_in_store(v: Value, store_id: u64)
    requires
        carrier_in_store(v, store_id),
    ensures
        rehydrate_spec(to_foreign_spec(v), ty_spec(v), store_id) == Ok::<Value, Error>(v),
{
}

} // verus!
