//! Opaque carriers of native payloads, keyed into their owning store.

use vstd::prelude::*;

use crate::error::Error;
use crate::store::{Payload, Store};

verus! {

/// An opaque reference to a native payload stored in a [`Store`].
///
/// The payload lives in the store until the store is dropped; the reference
/// carries only the store's identity and the payload's slot, and doubles as
/// the token that crosses the foreign boundary.
#[derive(Clone, Copy, PartialEq, Eq, Structural, Debug)]
pub struct ExternRef {
    /// The identity of the store the payload was created in.
    pub store_id: u64,
    /// The payload's slot in that store's payload table.
    pub index: usize,
}

/// What reading a payload back at type tag `tag` returns: the payload when
/// the reference belongs to the store with identity `store_id` and payload
/// table `payloads`, and was stored with the same tag.
pub open spec fn downcast_spec<V>(
    r: ExternRef,
    store_id: u64,
    payloads: Seq<Payload<V>>,
    tag: u64,
) -> Result<V, Error> {
    if r.store_id != store_id || r.index >= payloads.len() {
        Err(Error::CrossStore)
    } else if payloads[r.index as int].tag != tag {
        Err(Error::TypeMismatch)
    } else {
        Ok(payloads[r.index as int].value)
    }
}

impl ExternRef {
    /// Stores `value` in the owning store's payload table under the type tag
    /// `tag` and returns the reference that keys it.
    ///
    /// The payload is retained until the store is dropped.
    pub fn new<T, F, V>(store: &mut Store<T, F, V>, tag: u64, value: V) -> (r: ExternRef)
        requires
            old(store).payloads@.len() < usize::MAX,
        ensures
            final(store).payloads@ == old(store).payloads@.push(Payload { tag, value }),
            r == (ExternRef { store_id: old(store).id, index: old(store).payloads@.len() as usize }),
            final(store).id == old(store).id,
            final(store).data == old(store).data,
            final(store).funcs == old(store).funcs,
            final(store).memories == old(store).memories,
            final(store).tables == old(store).tables,
            final(store).globals == old(store).globals,
            final(store).instances == old(store).instances,
    {
        let index = store.payloads.len();
        store.payloads.push(Payload { tag, value });
        ExternRef { store_id: store.id, index }
    }

    /// Returns the stored payload when this reference was created in `store`
    /// and its payload was stored under `tag`.
    ///
    /// Fails with [`Error::CrossStore`] when the reference did not originate
    /// in this store, and with [`Error::TypeMismatch`] when the payload was
    /// stored under a different type tag.
    pub fn downcast<'a, T, F, V>(&self, store: &'a Store<T, F, V>, tag: u64) -> (r: Result<
        &'a V,
        Error,
    >)
        ensures
            match r {
                Ok(v) => downcast_spec(*self, store.id, store.payloads@, tag) == Ok::<V, Error>(*v),
                Err(e) => downcast_spec(*self, store.id, store.payloads@, tag) == Err::<V, Error>(e),
            },
    {
        if self.store_id != store.id || self.index >= store.payloads.len() {
            Err(Error::CrossStore)
        } else if store.payloads[self.index].tag != tag {
            Err(Error::TypeMismatch)
        } else {
            Ok(&store.payloads[self.index].value)
        }
    }
}

/// A payload stored under a tag is read back unchanged at that tag, and
/// refused with a type mismatch at every other tag: storing appends the
/// payload, and reading the appended slot dispatches on the tag alone.
pub proof fn lemma_downcast_after_new<V>(
    payloads: Seq<Payload<V>>,
    store_id: u64,
    tag: u64,
    value: V,
    other: u64,
)
    requires
        payloads.len() < usize::MAX,
    ensures
        downcast_spec(
            ExternRef { store_id, index: payloads.len() as usize },
            store_id,
            payloads.push(Payload { tag, value }),
            tag,
        ) == Ok::<V, Error>(value),
        other != tag ==> downcast_spec(
            ExternRef { store_id, index: payloads.len() as usize },
            store_id,
            payloads.push(Payload { tag, value }),
            other,
        ) == Err::<V, Error>(Error::TypeMismatch),
{
}

} // verus!
