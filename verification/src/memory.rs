//! Linear memories: typed wrappers over a host memory object.

use vstd::prelude::*;

use crate::conversion::HostValue;
use crate::error::Error;
use crate::store::{MemoryState, Store};
use crate::value::MemoryType;

verus! {

/// The number of pages no memory may exceed: 4 GiB of 64 KiB pages.
pub const MAX_PAGES: u32 = 65536;

/// A typed handle to a host linear memory created against a store.
#[derive(Clone, Copy, PartialEq, Eq, Structural, Debug)]
pub struct Memory {
    /// The memory's slot in the owning store.
    pub id: usize,
    /// The declared limits.
    pub ty: MemoryType,
}

/// The number of pages a memory of this type may grow to.
pub open spec fn memory_limit(ty: MemoryType) -> u32 {
    match ty.maximum {
        Some(m) => m,
        None => MAX_PAGES,
    }
}

/// Whether the host's constructor accepts these limits: neither bound above
/// the page ceiling, and the minimum within the maximum.
pub open spec fn memory_type_valid(ty: MemoryType) -> bool {
    &&& ty.minimum <= MAX_PAGES
    &&& match ty.maximum {
        Some(m) => ty.minimum <= m && m <= MAX_PAGES,
        None => true,
    }
}

impl Memory {
    /// Creates a host memory with the declared limits.
    ///
    /// Fails with [`Error::HostError`] exactly when the host's constructor
    /// would refuse the limits.
    pub fn new<T, F, V>(store: &mut Store<T, F, V>, ty: MemoryType) -> (r: Result<Memory, Error>)
        requires
            old(store).memories@.len() < usize::MAX,
        ensures
            match r {
                Ok(m) => {
                    &&& memory_type_valid(ty)
                    &&& m == (Memory { id: old(store).memories@.len() as usize, ty })
                    &&& final(store).memories@ == old(store).memories@.push(
                        MemoryState { pages: ty.minimum, ty },
                    )
                },
                Err(e) => {
                    &&& !memory_type_valid(ty)
                    &&& e == Error::HostError
                    &&& final(store).memories@ == old(store).memories@
                },
            },
            final(store).id == old(store).id,
            final(store).engine == old(store).engine,
            final(store).data == old(store).data,
            final(store).instances == old(store).instances,
            final(store).funcs == old(store).funcs,
            final(store).payloads == old(store).payloads,
            final(store).tables == old(store).tables,
            final(store).globals == old(store).globals,
    {
        let valid = ty.minimum <= MAX_PAGES && match ty.maximum {
            Some(m) => ty.minimum <= m && m <= MAX_PAGES,
            None => true,
        };
        if !valid {
            return Err(Error::HostError);
        }
        let id = store.memories.len();
        store.memories.push(MemoryState { pages: ty.minimum, ty });
        Ok(Memory { id, ty })
    }

    /// The declared limits, as stored at creation; the host is never asked
    /// again.
    pub fn ty(&self) -> (r: MemoryType)
        ensures
            r == self.ty,
    {
        self.ty
    }

    /// The current size in pages.
    pub fn size<T, F, V>(&self, store: &Store<T, F, V>) -> (r: u32)
        requires
            self.id < store.memories@.len(),
        ensures
            r == store.memories@[self.id as int].pages,
    {
        store.memories[self.id].pages
    }

    /// Grows the memory by `delta` pages and returns the prior page count.
    ///
    /// Fails with [`Error::HostError`], leaving the memory unchanged,
    /// exactly when the grown size would pass the declared maximum, or the
    /// page ceiling where no maximum was declared.
    pub fn grow<T, F, V>(&self, store: &mut Store<T, F, V>, delta: u32) -> (r: Result<u32, Error>)
        requires
            self.id < old(store).memories@.len(),
        ensures
            ({
                let prior = old(store).memories@[self.id as int].pages;
                let limit = memory_limit(old(store).memories@[self.id as int].ty);
                match r {
                    Ok(p) => {
                        &&& prior + delta <= limit
                        &&& p == prior
                        &&& final(store).memories@ == old(store).memories@.update(
                            self.id as int,
                            MemoryState {
                                pages: (prior + delta) as u32,
                                ty: old(store).memories@[self.id as int].ty,
                            },
                        )
                    },
                    Err(e) => {
                        &&& prior + delta > limit
                        &&& e == Error::HostError
                        &&& final(store).memories@ == old(store).memories@
                    },
                }
            }),
            final(store).id == old(store).id,
            final(store).engine == old(store).engine,
            final(store).data == old(store).data,
            final(store).instances == old(store).instances,
            final(store).funcs == old(store).funcs,
            final(store).payloads == old(store).payloads,
            final(store).tables == old(store).tables,
            final(store).globals == old(store).globals,
    {
        let prior = store.memories[self.id].pages;
        let ty = store.memories[self.id].ty;
        let limit = match ty.maximum {
            Some(m) => m,
            None => MAX_PAGES,
        };
        if delta > limit || prior > limit - delta {
            return Err(Error::HostError);
        }
        store.memories[self.id] = MemoryState { pages: prior + delta, ty };
        Ok(prior)
    }

    /// Wraps an exported host object as a memory of the declared type.
    ///
    /// Fails with [`Error::InvariantViolation`] when the object is not a
    /// live memory of this store, or its observed size falls short of the
    /// declared minimum.
    pub fn from_exported_memory<T, F, V>(store: &Store<T, F, V>, value: &HostValue, ty: MemoryType) -> (r:
        Result<Memory, Error>)
        ensures
            r == from_exported_memory_spec(store.memories@, *value, ty),
    {
        match value {
            HostValue::Memory(m) => {
                if m.id >= store.memories.len() {
                    Err(Error::InvariantViolation)
                } else if store.memories[m.id].pages < ty.minimum {
                    Err(Error::InvariantViolation)
                } else {
                    Ok(Memory { id: m.id, ty })
                }
            },
            _ => Err(Error::InvariantViolation),
        }
    }
}

/// What wrapping an exported host object as a memory returns: the handle
/// retyped to the declared limits when the object is a live memory of this
/// store whose observed size reaches the declared minimum.
pub open spec fn from_exported_memory_spec(
    memories: Seq<MemoryState>,
    value: HostValue,
    ty: MemoryType,
) -> Result<Memory, Error> {
    match value {
        HostValue::Memory(m) => if m.id >= memories.len() {
            Err(Error::InvariantViolation)
        } else if memories[m.id as int].pages < ty.minimum {
            Err(Error::InvariantViolation)
        } else {
            Ok(Memory { id: m.id, ty })
        },
        _ => Err(Error::InvariantViolation),
    }
}

} // verus!
