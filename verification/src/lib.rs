//! A verified model of a WebAssembly runtime adapter.
//!
//! The library exposes `Engine`, `Store`, `Module`, `Instance`, `Func`,
//! `Global`, `Memory`, `Table` and `ExternRef` types. All state that a live
//! host runtime would own is modelled inside the `Store`, so that value
//! marshalling, export resolution and store-scoped lifetimes can be stated
//! and proved. The thin foreign-bridge plumbing that drives a real host
//! lives outside the library and exchanges plain values with it.

use vstd::prelude::*;

pub mod conversion;
pub mod error;
pub mod externref;
pub mod func;
pub mod global;
pub mod instance;
pub mod memory;
pub mod module;
pub mod store;
pub mod table;
pub mod value;

pub use conversion::HostValue;
pub use error::Error;
pub use externref::ExternRef;
pub use func::{marshal_call_args, read_call_results, EchoHost, Func, HostFn};
pub use global::Global;
pub use instance::{Import, Imports, ImportsObject, Instance, InstanceInner, ModuleImports};
pub use memory::Memory;
pub use module::{Module, ParsedModule};
pub use store::{FuncRecord, GlobalState, MemoryState, Payload, Store, StoreContext, TableState};
pub use table::Table;
pub use value::{
    Extern, ExternType, FuncType, GlobalDescriptor, GlobalType, MemoryDescriptor, MemoryType,
    TableDescriptor, TableType, Value, ValueType,
};

verus! {

/// Marker for the runtime family; it holds no state of its own.
///
/// Every stateful object lives in a [`Store`], which is created against an
/// engine; the engine itself is freely cloneable.
#[derive(Clone, Copy)]
pub struct Engine {}

impl Engine {
    /// Creates the engine marker.
    pub fn new() -> (e: Engine) {
        Engine {}
    }
}

impl Default for Engine {
    fn default() -> (e: Engine)
        ensures
            e == (Engine {}),
    {
        Engine {}
    }
}

} // verus!
