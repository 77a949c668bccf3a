//! Tables: typed wrappers over a host table object.

use vstd::prelude::*;

use crate::conversion::{
    foreign_matches, rehydrate_spec, to_foreign_spec, HostValue,
};
use crate::error::Error;
use crate::store::{Store, TableState};
use crate::value::{TableType, Value, ValueType};

verus! {

/// A typed handle to a host table created against a store.
#[derive(Clone, Copy, PartialEq, Eq, Structural, Debug)]
pub struct Table {
    /// The table's slot in the owning store.
    pub id: usize,
    /// The declared element type and limits.
    pub ty: TableType,
}

/// The number of elements a table of this type may grow to.
pub open spec fn table_limit(ty: TableType) -> u32 {
    match ty.maximum {
        Some(m) => m,
        None => u32::MAX,
    }
}

/// Whether the host's constructor accepts these limits.
pub open spec fn table_type_valid(ty: TableType) -> bool {
    match ty.maximum {
        Some(m) => ty.minimum <= m,
        None => true,
    }
}

impl Table {
    /// Creates a host table of the declared type, filled with `init`.
    ///
    /// Fails with [`Error::HostError`] exactly when the host's constructor
    /// would refuse: the initial value outside the element type, or the
    /// minimum above the maximum.
    pub fn new<T, F, V>(store: &mut Store<T, F, V>, ty: TableType, init: &Value) -> (r: Result<
        Table,
        Error,
    >)
        requires
            old(store).tables@.len() < usize::MAX,
        ensures
            match r {
                Ok(t) => {
                    &&& foreign_matches(to_foreign_spec(*init), ty.element)
                    &&& table_type_valid(ty)
                    &&& t == (Table { id: old(store).tables@.len() as usize, ty })
                    &&& final(store).tables@.len() == old(store).tables@.len() + 1
                    &&& final(store).tables@.take(old(store).tables@.len() as int) == old(
                        store,
                    ).tables@
                    &&& final(store).tables@.last().ty == ty
                    &&& final(store).tables@.last().elements@ == Seq::new(
                        ty.minimum as nat,
                        |i: int| to_foreign_spec(*init),
                    )
                },
                Err(e) => {
                    &&& !(foreign_matches(to_foreign_spec(*init), ty.element) && table_type_valid(
                        ty,
                    ))
                    &&& e == Error::HostError
                    &&& final(store).tables@ == old(store).tables@
                },
            },
            final(store).id == old(store).id,
            final(store).engine == old(store).engine,
            final(store).data == old(store).data,
            final(store).instances == old(store).instances,
            final(store).funcs == old(store).funcs,
            final(store).payloads == old(store).payloads,
            final(store).memories == old(store).memories,
            final(store).globals == old(store).globals,
    {
        let foreign = init.to_foreign();
        let valid = match ty.maximum {
            Some(m) => ty.minimum <= m,
            None => true,
        };
        if !crate::conversion::host_matches(&foreign, ty.element) || !valid {
            return Err(Error::HostError);
        }
        let mut elements: Vec<HostValue> = Vec::new();
        let mut i: u32 = 0;
        while i < ty.minimum
            invariant
                i <= ty.minimum,
                elements@ =~= Seq::new(i as nat, |k: int| to_foreign_spec(*init)),
                foreign == to_foreign_spec(*init),
            decreases ty.minimum - i,
        {
            elements.push(foreign.duplicate());
            i += 1;
            proof {
                assert(elements@ =~= Seq::new(i as nat, |k: int| to_foreign_spec(*init)));
            }
        }
        let id = store.tables.len();
        store.tables.push(TableState { elements, ty });
        Ok(Table { id, ty })
    }

    /// The declared element type and limits, as stored at creation.
    pub fn ty(&self) -> (r: TableType)
        ensures
            r == self.ty,
    {
        self.ty
    }

    /// The current number of elements.
    pub fn size<T, F, V>(&self, store: &Store<T, F, V>) -> (r: u32)
        requires
            self.id < store.tables@.len(),
            store.tables@[self.id as int].elements@.len() <= u32::MAX,
        ensures
            r == store.tables@[self.id as int].elements@.len(),
    {
        store.tables[self.id].elements.len() as u32
    }

    /// Grows the table by `delta` copies of `init` and returns the prior
    /// element count.
    ///
    /// Fails with [`Error::HostError`], leaving the table unchanged, exactly
    /// when `init` falls outside the element type, or the grown size would
    /// pass the declared maximum (or the index ceiling where none was
    /// declared).
    pub fn grow<T, F, V>(&self, store: &mut Store<T, F, V>, delta: u32, init: &Value) -> (r: Result<
        u32,
        Error,
    >)
        requires
            self.id < old(store).tables@.len(),
            old(store).tables@[self.id as int].elements@.len() <= u32::MAX,
        ensures
            ({
                let prior = old(store).tables@[self.id as int].elements@;
                let limit = table_limit(old(store).tables@[self.id as int].ty);
                match r {
                    Ok(p) => {
                        &&& foreign_matches(
                            to_foreign_spec(*init),
                            old(store).tables@[self.id as int].ty.element,
                        )
                        &&& prior.len() + delta <= limit
                        &&& p == prior.len()
                        &&& final(store).tables@ == old(store).tables@.update(
                            self.id as int,
                            TableState {
                                elements: final(store).tables@[self.id as int].elements,
                                ty: old(store).tables@[self.id as int].ty,
                            },
                        )
                        &&& final(store).tables@[self.id as int].elements@ == prior + Seq::new(
                            delta as nat,
                            |i: int| to_foreign_spec(*init),
                        )
                    },
                    Err(e) => {
                        &&& !(foreign_matches(
                            to_foreign_spec(*init),
                            old(store).tables@[self.id as int].ty.element,
                        ) && prior.len() + delta <= limit)
                        &&& e == Error::HostError
                        &&& final(store).tables@ == old(store).tables@
                    },
                }
            }),
            final(store).id == old(store).id,
            final(store).engine == old(store).engine,
            final(store).data == old(store).data,
            final(store).instances == old(store).instances,
            final(store).funcs == old(store).funcs,
            final(store).payloads == old(store).payloads,
            final(store).memories == old(store).memories,
            final(store).globals == old(store).globals,
    {
        let foreign = init.to_foreign();
        let state_ty = store.tables[self.id].ty;
        let prior = store.tables[self.id].elements.len() as u32;
        let limit = match state_ty.maximum {
            Some(m) => m,
            None => u32::MAX,
        };
        if !crate::conversion::host_matches(&foreign, state_ty.element) || delta > limit || prior
            > limit - delta {
            return Err(Error::HostError);
        }
        let ghost prior_elems = store.tables@[self.id as int].elements@;
        proof {
            assert(store.tables@[self.id as int].elements@ =~= prior_elems + Seq::new(
                0 as nat,
                |k: int| to_foreign_spec(*init),
            ));
            assert(store.tables@ =~= old(store).tables@.update(
                self.id as int,
                store.tables@[self.id as int],
            ));
        }
        let mut i: u32 = 0;
        while i < delta
            invariant
                i <= delta,
                self.id < store.tables@.len(),
                self.id < old(store).tables@.len(),
                foreign == to_foreign_spec(*init),
                store.tables@[self.id as int].ty == old(store).tables@[self.id as int].ty,
                store.tables@[self.id as int].elements@ =~= prior_elems + Seq::new(
                    i as nat,
                    |k: int| to_foreign_spec(*init),
                ),
                store.tables@ == old(store).tables@.update(
                    self.id as int,
                    store.tables@[self.id as int],
                ),
                store.id == old(store).id,
                store.engine == old(store).engine,
                store.data == old(store).data,
                store.instances == old(store).instances,
                store.funcs == old(store).funcs,
                store.payloads == old(store).payloads,
                store.memories == old(store).memories,
                store.globals == old(store).globals,
            decreases delta - i,
        {
            store.tables[self.id].elements.push(foreign.duplicate());
            i += 1;
            proof {
                assert(store.tables@[self.id as int].elements@ =~= prior_elems + Seq::new(
                    i as nat,
                    |k: int| to_foreign_spec(*init),
                ));
                assert(store.tables@ =~= old(store).tables@.update(
                    self.id as int,
                    store.tables@[self.id as int],
                ));
            }
        }
        Ok(prior)
    }

    /// Reads the element at `index`, typed through the declared element
    /// type.
    ///
    /// Returns `Ok(None)` exactly when `index` is beyond the current size;
    /// otherwise the element is read back inside this store's context.
    pub fn get<T, F, V>(&self, store: &Store<T, F, V>, index: u32) -> (r: Result<Option<Value>, Error>)
        requires
            self.id < store.tables@.len(),
        ensures
            ({
                let elems = store.tables@[self.id as int].elements@;
                if index >= elems.len() {
                    r == Ok::<Option<Value>, Error>(None)
                } else {
                    match rehydrate_spec(elems[index as int], self.ty.element, store.id) {
                        Ok(v) => r == Ok::<Option<Value>, Error>(Some(v)),
                        Err(e) => r == Err::<Option<Value>, Error>(e),
                    }
                }
            }),
    {
        if index as usize >= store.tables[self.id].elements.len() {
            return Ok(None);
        }
        match Value::rehydrate_typed(
            &store.tables[self.id].elements[index as usize],
            self.ty.element,
            store.id,
        ) {
            Ok(v) => Ok(Some(v)),
            Err(e) => Err(e),
        }
    }

    /// Writes the element at `index`.
    ///
    /// Fails with [`Error::OutOfBounds`] when `index` is beyond the current
    /// size, and with [`Error::HostError`] when the value falls outside the
    /// declared element type; the table is unchanged on failure.
    pub fn set<T, F, V>(&self, store: &mut Store<T, F, V>, index: u32, value: &Value) -> (r: Result<
        (),
        Error,
    >)
        requires
            self.id < old(store).tables@.len(),
        ensures
            ({
                let prior = old(store).tables@[self.id as int].elements@;
                let ety = old(store).tables@[self.id as int].ty.element;
                match r {
                    Ok(u) => {
                        &&& index < prior.len()
                        &&& foreign_matches(to_foreign_spec(*value), ety)
                        &&& final(store).tables@ == old(store).tables@.update(
                            self.id as int,
                            TableState {
                                elements: final(store).tables@[self.id as int].elements,
                                ty: old(store).tables@[self.id as int].ty,
                            },
                        )
                        &&& final(store).tables@[self.id as int].elements@ == prior.update(
                            index as int,
                            to_foreign_spec(*value),
                        )
                    },
                    Err(e) => {
                        &&& final(store).tables@ == old(store).tables@
                        &&& if index >= prior.len() {
                            e == Error::OutOfBounds
                        } else {
                            !foreign_matches(to_foreign_spec(*value), ety) && e == Error::HostError
                        }
                    },
                }
            }),
            final(store).id == old(store).id,
            final(store).engine == old(store).engine,
            final(store).data == old(store).data,
            final(store).instances == old(store).instances,
            final(store).funcs == old(store).funcs,
            final(store).payloads == old(store).payloads,
            final(store).memories == old(store).memories,
            final(store).globals == old(store).globals,
    {
        if index as usize >= store.tables[self.id].elements.len() {
            return Err(Error::OutOfBounds);
        }
        let foreign = value.to_foreign();
        let ety = store.tables[self.id].ty.element;
        if !crate::conversion::host_matches(&foreign, ety) {
            return Err(Error::HostError);
        }
        store.tables[self.id].elements[index as usize] = foreign;
        proof {
            assert(store.tables@ =~= old(store).tables@.update(
                self.id as int,
                store.tables@[self.id as int],
            ));
        }
        Ok(())
    }

    /// Wraps an exported host object as a table of the declared type.
    ///
    /// Fails with [`Error::InvariantViolation`] when the object is not a
    /// live table of this store, its observed length falls short of the
    /// declared minimum, or the declared element type is not `funcref`:
    /// exported tables of any other element type are not supported.
    pub fn from_exported_table<T, F, V>(store: &Store<T, F, V>, value: &HostValue, ty: TableType) -> (r:
        Result<Table, Error>)
        ensures
            r == from_exported_table_spec(store.tables@, *value, ty),
    {
        match value {
            HostValue::Table(t) => {
                if t.id >= store.tables.len() {
                    Err(Error::InvariantViolation)
                } else if (store.tables[t.id].elements.len() as u64) < ty.minimum as u64 {
                    Err(Error::InvariantViolation)
                } else if !matches!(ty.element, ValueType::FuncRef) {
                    Err(Error::InvariantViolation)
                } else {
                    Ok(Table { id: t.id, ty })
                }
            },
            _ => Err(Error::InvariantViolation),
        }
    }
}

/// What wrapping an exported host object as a table returns: the handle
/// retyped to the declared type when the object is a live table of this
/// store, long enough for the declared minimum, and declared `funcref`.
pub open spec fn from_exported_table_spec(
    tables: Seq<TableState>,
    value: HostValue,
    ty: TableType,
) -> Result<Table, Error> {
    match value {
        HostValue::Table(t) => if t.id >= tables.len() {
            Err(Error::InvariantViolation)
        } else if tables[t.id as int].elements@.len() < ty.minimum {
            Err(Error::InvariantViolation)
        } else if !(ty.element is FuncRef) {
            Err(Error::InvariantViolation)
        } else {
            Ok(Table { id: t.id, ty })
        },
        _ => Err(Error::InvariantViolation),
    }
}

} // verus!
