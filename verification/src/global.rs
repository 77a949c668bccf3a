//! Globals: typed wrappers over a host global object.

use vstd::prelude::*;

use crate::conversion::{
    foreign_matches, rehydrate_spec, to_foreign_spec, HostValue,
};
use crate::error::Error;
use crate::store::{GlobalState, Store};
use crate::value::{GlobalType, Value};

verus! {

/// A typed handle to a host global created against a store.
#[derive(Clone, Copy, PartialEq, Eq, Structural, Debug)]
pub struct Global {
    /// The global's slot in the owning store.
    pub id: usize,
    /// The declared value type and mutability.
    pub ty: GlobalType,
}

impl Global {
    /// Creates a host global holding `init`.
    ///
    /// Fails with [`Error::HostError`] exactly when the host's constructor
    /// would refuse the initial value against the declared value type.
    pub fn new<T, F, V>(store: &mut Store<T, F, V>, ty: GlobalType, init: &Value) -> (r: Result<
        Global,
        Error,
    >)
        requires
            old(store).globals@.len() < usize::MAX,
        ensures
            match r {
                Ok(g) => {
                    &&& foreign_matches(to_foreign_spec(*init), ty.content)
                    &&& g == (Global { id: old(store).globals@.len() as usize, ty })
                    &&& final(store).globals@ == old(store).globals@.push(
                        GlobalState { value: to_foreign_spec(*init), ty },
                    )
                },
                Err(e) => {
                    &&& !foreign_matches(to_foreign_spec(*init), ty.content)
                    &&& e == Error::HostError
                    &&& final(store).globals@ == old(store).globals@
                },
            },
            final(store).id == old(store).id,
            final(store).engine == old(store).engine,
            final(store).data == old(store).data,
            final(store).instances == old(store).instances,
            final(store).funcs == old(store).funcs,
            final(store).payloads == old(store).payloads,
            final(store).memories == old(store).memories,
            final(store).tables == old(store).tables,
    {
        let value = init.to_foreign();
        if !crate::conversion::host_matches(&value, ty.content) {
            return Err(Error::HostError);
        }
        let id = store.globals.len();
        store.globals.push(GlobalState { value, ty });
        Ok(Global { id, ty })
    }

    /// The declared value type and mutability, as stored at creation.
    pub fn ty(&self) -> (r: GlobalType)
        ensures
            r == self.ty,
    {
        self.ty
    }

    /// Reads the global's value, typed through the declared value type.
    pub fn get<T, F, V>(&self, store: &Store<T, F, V>) -> (r: Result<Value, Error>)
        requires
            self.id < store.globals@.len(),
        ensures
            r == rehydrate_spec(store.globals@[self.id as int].value, self.ty.content, store.id),
    {
        Value::rehydrate_typed(&store.globals[self.id].value, self.ty.content, store.id)
    }

    /// Writes the global's value.
    ///
    /// Fails with [`Error::HostError`], leaving the global unchanged, when
    /// the global was declared immutable or the value does not inhabit the
    /// declared value type.
    pub fn set<T, F, V>(&self, store: &mut Store<T, F, V>, value: &Value) -> (r: Result<(), Error>)
        requires
            self.id < old(store).globals@.len(),
        ensures
            match r {
                Ok(u) => {
                    &&& self.ty.mutable
                    &&& foreign_matches(to_foreign_spec(*value), self.ty.content)
                    &&& final(store).globals@ == old(store).globals@.update(
                        self.id as int,
                        GlobalState {
                            value: to_foreign_spec(*value),
                            ty: old(store).globals@[self.id as int].ty,
                        },
                    )
                },
                Err(e) => {
                    &&& !(self.ty.mutable && foreign_matches(to_foreign_spec(*value), self.ty.content))
                    &&& e == Error::HostError
                    &&& final(store).globals@ == old(store).globals@
                },
            },
            final(store).id == old(store).id,
            final(store).engine == old(store).engine,
            final(store).data == old(store).data,
            final(store).instances == old(store).instances,
            final(store).funcs == old(store).funcs,
            final(store).payloads == old(store).payloads,
            final(store).memories == old(store).memories,
            final(store).tables == old(store).tables,
    {
        let foreign = value.to_foreign();
        if !self.ty.mutable || !crate::conversion::host_matches(&foreign, self.ty.content) {
            return Err(Error::HostError);
        }
        let ty = store.globals[self.id].ty;
        store.globals[self.id] = GlobalState { value: foreign, ty };
        Ok(())
    }

    /// Wraps an exported host object as a global of the declared type.
    ///
    /// Fails with [`Error::InvariantViolation`] when the object is not a
    /// live global of this store.
    pub fn from_exported_global<T, F, V>(store: &Store<T, F, V>, value: &HostValue, ty: GlobalType) -> (r:
        Result<Global, Error>)
        ensures
            r == from_exported_global_spec(store.globals@.len() as int, *value, ty),
    {
        match value {
            HostValue::Global(g) => {
                if g.id >= store.globals.len() {
                    Err(Error::InvariantViolation)
                } else {
                    Ok(Global { id: g.id, ty })
                }
            },
            _ => Err(Error::InvariantViolation),
        }
    }
}

/// What wrapping an exported host object as a global returns: the handle
/// retyped to the declared type when the object is a live global of this
/// store.
pub open spec fn from_exported_global_spec(
    n_globals: int,
    value: HostValue,
    ty: GlobalType,
) -> Result<Global, Error> {
    match value {
        HostValue::Global(g) => if g.id >= n_globals {
            Err(Error::InvariantViolation)
        } else {
            Ok(Global { id: g.id, ty })
        },
        _ => Err(Error::InvariantViolation),
    }
}

} // verus!
