//! The store: unique owner of all state with a store-scoped lifetime.
//!
//! Besides the user's own state, the store owns the instance table, the
//! payloads behind every [`crate::ExternRef`], the closures behind every
//! host-defined [`crate::Func`], and the modelled state of every host
//! memory, table and global created against it. Handles carry indices into
//! these tables, so clones of a handle alias one underlying object.

use vstd::prelude::*;

use crate::conversion::HostValue;
use crate::instance::{Instance, InstanceInner};
use crate::value::{FuncType, GlobalType, MemoryType, TableType};
use crate::Engine;
use slab::Slab;
use std::rc::Rc;

verus! {

/// The state of one host memory: its current size in 64 KiB pages, and its
/// declared limits.
#[derive(Debug)]
pub struct MemoryState {
    /// The current number of pages.
    pub pages: u32,
    /// The declared limits.
    pub ty: MemoryType,
}

/// The state of one host table: its elements as any-objects, and its
/// declared type.
#[derive(Debug)]
pub struct TableState {
    /// The current elements, in index order.
    pub elements: Vec<HostValue>,
    /// The declared element type and limits.
    pub ty: TableType,
}

/// The state of one host global: its value as an any-object, and its
/// declared type.
#[derive(Debug)]
pub struct GlobalState {
    /// The current value.
    pub value: HostValue,
    /// The declared value type and mutability.
    pub ty: GlobalType,
}

/// One store-scoped payload, stored under a caller-chosen type tag.
#[derive(Debug)]
pub struct Payload<V> {
    /// The tag the payload was stored under; reading it back at another tag
    /// is a type mismatch.
    pub tag: u64,
    /// The payload itself.
    pub value: V,
}

/// One host-defined function: the native closure and the signature it was
/// registered with.
#[derive(Debug)]
pub struct FuncRecord<F> {
    /// The registered closure.
    pub hostfn: F,
    /// The signature the closure was registered with, shared with the
    /// handles that carry it.
    pub ty: Rc<FuncType>,
}

#[verifier::external_type_specification]
#[verifier::external_body]
#[verifier::reject_recursive_types(T)]
/// The insertion-stable slot collection of the outside `slab` crate, as the
/// store's instance table uses it.
pub struct ExSlab<T>(Slab<T>);

/// The occupied slots of the instance table: which key holds which instance.
pub uninterp spec fn instance_slots(s: Slab<InstanceInner>) -> Map<int, InstanceInner>;

/// Relies on slab::Slab::new: a new slab has no occupied slots.
#[verifier::external_body]
fn slab_new() -> (s: Slab<InstanceInner>)
    ensures
        instance_slots(s).dom() == Set::<int>::empty(),
{
    Slab::new()
}

/// Relies on slab::Slab::insert: the value is placed in a vacant slot and
/// the slot's key is returned.
#[verifier::external_body]
fn slab_insert(s: &mut Slab<InstanceInner>, value: InstanceInner) -> (key: usize)
    ensures
        !instance_slots(*old(s)).dom().contains(key as int),
        instance_slots(*final(s)) == instance_slots(*old(s)).insert(key as int, value),
{
    s.insert(value)
}

/// Relies on slab::Slab::get: an occupied slot's value, or `None` for a
/// vacant or out-of-range key.
#[verifier::external_body]
fn slab_get<'a>(s: &'a Slab<InstanceInner>, key: usize) -> (r: Option<&'a InstanceInner>)
    ensures
        match r {
            Some(v) => instance_slots(*s).dom().contains(key as int) && *v == instance_slots(
                *s,
            )[key as int],
            None => !instance_slots(*s).dom().contains(key as int),
        },
{
    s.get(key)
}

/// Owns the user state and every store-scoped table.
///
/// `T` is the user state, `F` the closure type of host-defined functions,
/// `V` the payload type behind extern references. The store is the unit of
/// exclusion: operations on handles take the store, shared or exclusive, and
/// a host-defined closure receives the store back, so that host calls may
/// re-enter with stacked exclusive contexts.
pub struct Store<T, F, V> {
    /// The store's identity; extern tokens carry it, and a caller must keep
    /// it distinct between stores that exchange values.
    pub id: u64,
    /// The engine the store was created against.
    pub engine: Engine,
    /// The user state.
    pub data: T,
    /// The live instances, keyed by stable indices.
    pub instances: Slab<InstanceInner>,
    /// The closures behind host-defined functions, in creation order.
    pub funcs: Vec<FuncRecord<F>>,
    /// The payloads behind extern references, in creation order; entries are
    /// never removed before the store is dropped.
    pub payloads: Vec<Payload<V>>,
    /// The modelled state of every memory created against this store.
    pub memories: Vec<MemoryState>,
    /// The modelled state of every table created against this store.
    pub tables: Vec<TableState>,
    /// The modelled state of every global created against this store.
    pub globals: Vec<GlobalState>,
}

impl<T, F, V> Store<T, F, V> {
    /// Creates a store that owns `data`, with identity `id`.
    ///
    /// Distinctness of identities between stores is the caller's duty; every
    /// cross-store check in the library is stated against these identities.
    pub fn new(engine: &Engine, id: u64, data: T) -> (s: Store<T, F, V>)
        ensures
            s.id == id,
            s.engine == *engine,
            s.data == data,
            instance_slots(s.instances) == Map::<int, InstanceInner>::empty(),
            s.funcs@ == Seq::<FuncRecord<F>>::empty(),
            s.payloads@ == Seq::<Payload<V>>::empty(),
            s.memories@ == Seq::<MemoryState>::empty(),
            s.tables@ == Seq::<TableState>::empty(),
            s.globals@ == Seq::<GlobalState>::empty(),
    {
        Store {
            id,
            engine: *engine,
            data,
            instances: slab_new(),
            funcs: Vec::new(),
            payloads: Vec::new(),
            memories: Vec::new(),
            tables: Vec::new(),
            globals: Vec::new(),
        }
    }

    /// The engine the store was created against.
    pub fn engine(&self) -> (r: &Engine)
        ensures
            *r == self.engine,
    {
        &self.engine
    }

    /// A shared borrow of the user state.
    pub fn data(&self) -> (r: &T)
        ensures
            *r == self.data,
    {
        &self.data
    }

    /// An exclusive borrow of the user state.
    pub fn data_mut(&mut self) -> (r: &mut T)
        ensures
            *r == old(self).data,
            final(self).data == *final(r),
            final(self).id == old(self).id,
            final(self).engine == old(self).engine,
            final(self).instances == old(self).instances,
            final(self).funcs == old(self).funcs,
            final(self).payloads == old(self).payloads,
            final(self).memories == old(self).memories,
            final(self).tables == old(self).tables,
            final(self).globals == old(self).globals,
    {
        &mut self.data
    }

    /// Consumes the store and hands the user state back; every store-scoped
    /// table is deallocated with it.
    pub fn into_data(self) -> (r: T)
        ensures
            r == self.data,
    {
        self.data
    }

    /// Registers a live instance and returns the handle that keys it; the
    /// key stays valid for the store's lifetime.
    pub fn insert_instance(&mut self, inner: InstanceInner) -> (r: Instance)
        ensures
            !instance_slots(old(self).instances).dom().contains(r.id as int),
            instance_slots(final(self).instances) == instance_slots(old(self).instances).insert(
                r.id as int,
                inner,
            ),
            final(self).id == old(self).id,
            final(self).engine == old(self).engine,
            final(self).data == old(self).data,
            final(self).funcs == old(self).funcs,
            final(self).payloads == old(self).payloads,
            final(self).memories == old(self).memories,
            final(self).tables == old(self).tables,
            final(self).globals == old(self).globals,
    {
        let id = slab_insert(&mut self.instances, inner);
        Instance { id }
    }

    /// The instance registered under `id`, if any.
    pub fn get_instance(&self, id: usize) -> (r: Option<&InstanceInner>)
        ensures
            match r {
                Some(v) => instance_slots(self.instances).dom().contains(id as int) && *v
                    == instance_slots(self.instances)[id as int],
                None => !instance_slots(self.instances).dom().contains(id as int),
            },
    {
        slab_get(&self.instances, id)
    }

    /// A shared context over this store.
    pub fn as_context(&self) -> (r: StoreContext<'_, T, F, V>)
        ensures
            *r.store == *self,
    {
        StoreContext { store: self }
    }
}

/// A shared view of a store, handed to operations that only read.
pub struct StoreContext<'a, T, F, V> {
    /// The store in view.
    pub store: &'a Store<T, F, V>,
}

impl<'a, T, F, V> StoreContext<'a, T, F, V> {
    /// Wraps a shared borrow of a store.
    pub fn from_ref(store: &'a Store<T, F, V>) -> (r: StoreContext<'a, T, F, V>)
        ensures
            *r.store == *store,
    {
        StoreContext { store }
    }

    /// The engine the store was created against.
    pub fn engine(&self) -> (r: &Engine)
        ensures
            *r == self.store.engine,
    {
        &self.store.engine
    }

    /// A shared borrow of the user state.
    pub fn data(&self) -> (r: &T)
        ensures
            *r == self.store.data,
    {
        &self.store.data
    }
}

} // verus!
