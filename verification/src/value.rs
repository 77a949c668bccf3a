//! WebAssembly value and item types, and the values that carry them.
//!
//! Floating-point values are carried as their IEEE-754 bit patterns, so that
//! marshalling across the foreign boundary is exact and statable.

use std::rc::Rc;

use vstd::prelude::*;

use crate::externref::ExternRef;
use crate::func::Func;
use crate::global::Global;
use crate::memory::Memory;
use crate::table::Table;

verus! {

/// The declared type of a single WebAssembly value.
#[derive(Clone, Copy, PartialEq, Eq, Structural, Debug)]
pub enum ValueType {
    /// A 32-bit integer.
    I32,
    /// A 64-bit integer.
    I64,
    /// A 32-bit float, carried by its bit pattern.
    F32,
    /// A 64-bit float, carried by its bit pattern.
    F64,
    /// A nullable reference to a function.
    FuncRef,
    /// A nullable reference to a host-opaque payload.
    ExternRef,
}

/// The canonical ABI descriptor string for a value type, as the host's
/// constructors expect it.
pub open spec fn descriptor_spec(t: ValueType) -> Seq<char> {
    match t {
        ValueType::I32 => "i32"@,
        ValueType::I64 => "i64"@,
        ValueType::F32 => "f32"@,
        ValueType::F64 => "f64"@,
        ValueType::FuncRef => "anyfunc"@,
        ValueType::ExternRef => "externref"@,
    }
}

impl ValueType {
    /// The canonical ABI descriptor, used when building the plain objects
    /// handed to the host's constructors.
    pub fn as_js_descriptor(&self) -> (r: &'static str)
        ensures
            r@ == descriptor_spec(*self),
    {
        match self {
            ValueType::I32 => "i32",
            ValueType::I64 => "i64",
            ValueType::F32 => "f32",
            ValueType::F64 => "f64",
            ValueType::FuncRef => "anyfunc",
            ValueType::ExternRef => "externref",
        }
    }

    /// Whether the type is one of the four numeric types.
    pub open spec fn is_numeric(self) -> bool {
        match self {
            ValueType::I32 | ValueType::I64 | ValueType::F32 | ValueType::F64 => true,
            _ => false,
        }
    }
}

/// The declared signature of a function: parameter and result types.
#[derive(Debug)]
pub struct FuncType {
    /// The parameter types, in order.
    pub params: Vec<ValueType>,
    /// The result types, in order.
    pub results: Vec<ValueType>,
}

impl FuncType {
    /// Builds a signature from its parameter and result types.
    pub fn new(params: Vec<ValueType>, results: Vec<ValueType>) -> (r: FuncType)
        ensures
            r == (FuncType { params, results }),
    {
        FuncType { params, results }
    }
}

/// Relies on Rc::clone: the clone shares its allocation, so its value is
/// the value itself. Signatures are shared this way between a store's
/// records and the handles that carry them.
#[verifier::external_body]
pub fn share_func_type(v: &Rc<FuncType>) -> (res: Rc<FuncType>)
    ensures
        res == *v,
{
    Rc::clone(v)
}

/// The declared type of a global: its value type and mutability.
#[derive(Clone, Copy, PartialEq, Eq, Structural, Debug)]
pub struct GlobalType {
    /// The type of the stored value.
    pub content: ValueType,
    /// Whether the global may be written after creation.
    pub mutable: bool,
}

/// The declared limits of a memory, in 64 KiB pages.
#[derive(Clone, Copy, PartialEq, Eq, Structural, Debug)]
pub struct MemoryType {
    /// The initial number of pages.
    pub minimum: u32,
    /// The largest number of pages the memory may grow to, if bounded.
    pub maximum: Option<u32>,
}

/// The declared element type and limits of a table.
#[derive(Clone, Copy, PartialEq, Eq, Structural, Debug)]
pub struct TableType {
    /// The element type of the table.
    pub element: ValueType,
    /// The initial number of elements.
    pub minimum: u32,
    /// The largest number of elements the table may grow to, if bounded.
    pub maximum: Option<u32>,
}

/// The configuration a host constructor takes for a new table: the fields
/// of its descriptor object.
#[derive(Clone, Copy, PartialEq, Eq, Debug)]
pub struct TableDescriptor {
    /// The element type, as its canonical ABI string.
    pub element: &'static str,
    /// The initial number of elements.
    pub initial: u32,
    /// The largest permitted number of elements, if bounded.
    pub maximum: Option<u32>,
}

/// The configuration a host constructor takes for a new memory.
#[derive(Clone, Copy, PartialEq, Eq, Debug)]
pub struct MemoryDescriptor {
    /// The initial number of pages.
    pub initial: u32,
    /// The largest permitted number of pages, if bounded.
    pub maximum: Option<u32>,
}

/// The configuration a host constructor takes for a new global.
#[derive(Clone, Copy, PartialEq, Eq, Debug)]
pub struct GlobalDescriptor {
    /// The value type, as its canonical ABI string.
    pub value: &'static str,
    /// Whether the global may be written after creation.
    pub mutable: bool,
}

impl TableType {
    /// The descriptor the host's table constructor takes for this type.
    pub fn descriptor(&self) -> (r: TableDescriptor)
        ensures
            r.element@ == descriptor_spec(self.element),
            r.initial == self.minimum,
            r.maximum == self.maximum,
    {
        TableDescriptor {
            element: self.element.as_js_descriptor(),
            initial: self.minimum,
            maximum: self.maximum,
        }
    }
}

impl MemoryType {
    /// The descriptor the host's memory constructor takes for this type.
    pub fn descriptor(&self) -> (r: MemoryDescriptor)
        ensures
            r.initial == self.minimum,
            r.maximum == self.maximum,
    {
        MemoryDescriptor { initial: self.minimum, maximum: self.maximum }
    }
}

impl GlobalType {
    /// The descriptor the host's global constructor takes for this type.
    pub fn descriptor(&self) -> (r: GlobalDescriptor)
        ensures
            r.value@ == descriptor_spec(self.content),
            r.mutable == self.mutable,
    {
        GlobalDescriptor { value: self.content.as_js_descriptor(), mutable: self.mutable }
    }
}

/// The declared type of an imported or exported item.
#[derive(Debug)]
pub enum ExternType {
    /// A function with its signature, shared behind a reference count.
    Func(Rc<FuncType>),
    /// A global with its value type and mutability.
    Global(GlobalType),
    /// A memory with its limits.
    Memory(MemoryType),
    /// A table with its element type and limits.
    Table(TableType),
}

impl ExternType {
    /// An exact copy of the declared type.
    pub fn duplicate(&self) -> (r: ExternType)
        ensures
            r == *self,
    {
        match self {
            ExternType::Func(ft) => ExternType::Func(share_func_type(ft)),
            ExternType::Global(gt) => ExternType::Global(*gt),
            ExternType::Memory(mt) => ExternType::Memory(*mt),
            ExternType::Table(tt) => ExternType::Table(*tt),
        }
    }
}

/// A single typed WebAssembly value.
///
/// The float variants hold the IEEE-754 bit pattern of the value.
#[derive(Debug)]
pub enum Value {
    /// A 32-bit integer.
    I32(i32),
    /// A 64-bit integer.
    I64(i64),
    /// The bit pattern of a 32-bit float.
    F32(u32),
    /// The bit pattern of a 64-bit float.
    F64(u64),
    /// A nullable function reference.
    FuncRef(Option<Func>),
    /// A nullable reference to a store-scoped payload.
    ExternRef(Option<ExternRef>),
}

/// The declared type a value inhabits.
pub open spec fn ty_spec(v: Value) -> ValueType {
    match v {
        Value::I32(_) => ValueType::I32,
        Value::I64(_) => ValueType::I64,
        Value::F32(_) => ValueType::F32,
        Value::F64(_) => ValueType::F64,
        Value::FuncRef(_) => ValueType::FuncRef,
        Value::ExternRef(_) => ValueType::ExternRef,
    }
}

impl Value {
    /// The declared type this value inhabits.
    pub fn ty(&self) -> (r: ValueType)
        ensures
            r == ty_spec(*self),
    {
        match self {
            Value::I32(_) => ValueType::I32,
            Value::I64(_) => ValueType::I64,
            Value::F32(_) => ValueType::F32,
            Value::F64(_) => ValueType::F64,
            Value::FuncRef(_) => ValueType::FuncRef,
            Value::ExternRef(_) => ValueType::ExternRef,
        }
    }

    /// An exact copy of the value.
    pub fn duplicate(&self) -> (r: Value)
        ensures
            r == *self,
    {
        match self {
            Value::I32(v) => Value::I32(*v),
            Value::I64(v) => Value::I64(*v),
            Value::F32(v) => Value::F32(*v),
            Value::F64(v) => Value::F64(*v),
            Value::FuncRef(Some(f)) => Value::FuncRef(Some(f.duplicate())),
            Value::FuncRef(None) => Value::FuncRef(None),
            Value::ExternRef(Some(r)) => Value::ExternRef(Some(*r)),
            Value::ExternRef(None) => Value::ExternRef(None),
        }
    }
}

/// Copies a list of values element for element.
pub fn copy_values(v: &Vec<Value>) -> (r: Vec<Value>)
    ensures
        r@ == v@,
{
    let mut r: Vec<Value> = Vec::new();
    let mut i: usize = 0;
    while i < v.len()
        invariant
            i <= v.len(),
            r@ == v@.take(i as int),
        decreases v.len() - i,
    {
        r.push(v[i].duplicate());
        i += 1;
        proof {
            assert(r@ == v@.take(i as int));
        }
    }
    proof {
        assert(v@.take(v@.len() as int) == v@);
    }
    r
}

/// A typed handle to an imported or exported item.
#[derive(Debug)]
pub enum Extern {
    /// A function handle.
    Func(Func),
    /// A global handle.
    Global(Global),
    /// A memory handle.
    Memory(Memory),
    /// A table handle.
    Table(Table),
}

impl Extern {
    /// An exact copy of the handle.
    pub fn duplicate(&self) -> (r: Extern)
        ensures
            r == *self,
    {
        match self {
            Extern::Func(f) => Extern::Func(f.duplicate()),
            Extern::Global(g) => Extern::Global(*g),
            Extern::Memory(m) => Extern::Memory(*m),
            Extern::Table(t) => Extern::Table(*t),
        }
    }
}

} // verus!
