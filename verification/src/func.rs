//! Functions: exported host callables and host-defined native closures.
//!
//! A host-defined function's closure is owned by the store it was created
//! in; the handle carries only the store's identity and the record's slot,
//! so host-side references never keep native captures alive. Invoking one
//! re-enters the store: the closure receives the store back exclusively and
//! may itself create objects or call further functions, giving stacked
//! re-entrant contexts.

use std::rc::Rc;

use vstd::prelude::*;

use crate::conversion::{
    carrier_in_store, rehydrate_spec, to_foreign_spec, HostValue,
};
use crate::error::Error;
use crate::store::{FuncRecord, Store};
use crate::value::{share_func_type, ty_spec, FuncType, Value, ValueType};

verus! {

/// A typed handle to a callable function.
#[derive(Debug)]
pub enum Func {
    /// A handle to a callable the host exported; the adapter knows nothing
    /// of it but its handle and declared signature.
    Exported {
        /// The opaque host callable.
        handle: u64,
        /// The declared signature.
        ty: Rc<FuncType>,
    },
    /// A native closure registered in a store.
    HostDefined {
        /// The identity of the owning store.
        store_id: u64,
        /// The closure record's slot in the owning store.
        index: usize,
        /// The signature the closure was registered with.
        ty: Rc<FuncType>,
    },
}

/// The declared signature of a function handle.
pub open spec fn func_ty_spec(f: Func) -> FuncType {
    match f {
        Func::Exported { ty, .. } => *ty,
        Func::HostDefined { ty, .. } => *ty,
    }
}

/// The same callable under a newly declared signature.
pub open spec fn retype_spec(f: Func, ty: Rc<FuncType>) -> Func {
    match f {
        Func::Exported { handle, .. } => Func::Exported { handle, ty },
        Func::HostDefined { store_id, index, .. } => Func::HostDefined { store_id, index, ty },
    }
}

/// Whether a list of values inhabits a list of declared types, position by
/// position.
pub open spec fn values_match(vs: Seq<Value>, tys: Seq<ValueType>) -> bool {
    vs.len() == tys.len() && forall|i: int| 0 <= i < vs.len() ==> ty_spec(vs[i]) == tys[i]
}

/// A native closure exposable to the host as a function.
///
/// `T` is the store's user state and `V` its payload type. Implementations
/// live with the library's users; the library's own proofs rest on
/// [`HostFn::effect`] describing [`HostFn::call`] exactly, which each
/// implementation must honour.
pub trait HostFn<T, V>: Sized {
    /// The abstract effect of the closure: the store it leaves behind and
    /// the results or error it returns, as a function of the store it was
    /// handed and its arguments.
    ///
    /// An implementation that leaves the default in place claims a plain
    /// failure of every call; a closure with behaviour worth reasoning
    /// about states its own.
    open spec fn effect(&self, s: Store<T, Self, V>, args: Seq<Value>) -> (Store<T, Self, V>, Result<
        Seq<Value>,
        Error,
    >) {
        (s, Err(Error::HostError))
    }

    /// An exact copy of the closure.
    fn duplicate(&self) -> (r: Self)
        ensures
            r == *self,
    ;

    /// Runs the closure over the store it is registered in, with a typed
    /// argument list, exactly as [`HostFn::effect`] describes it.
    fn call(&self, store: &mut Store<T, Self, V>, args: &Vec<Value>) -> (r: Result<Vec<Value>, Error>)
        ensures
            ({
                let (s2, rr) = self.effect(*old(store), args@);
                &&& *final(store) == s2
                &&& match r {
                    Ok(v) => rr == Ok::<Seq<Value>, Error>(v@),
                    Err(e) => rr == Err::<Seq<Value>, Error>(e),
                }
            }),
    ;
}

/// A host closure that returns its arguments unchanged and leaves the store
/// as it is.
#[derive(Debug)]
pub struct EchoHost {}

impl<T, V> HostFn<T, V> for EchoHost {
    open spec fn effect(&self, s: Store<T, Self, V>, args: Seq<Value>) -> (Store<T, Self, V>, Result<
        Seq<Value>,
        Error,
    >) {
        (s, Ok(args))
    }

    fn duplicate(&self) -> (r: Self) {
        EchoHost {}
    }

    fn call(&self, store: &mut Store<T, Self, V>, args: &Vec<Value>) -> (r: Result<Vec<Value>, Error>) {
        Ok(crate::value::copy_values(args))
    }
}

/// What writing an argument list across the boundary produces.
pub open spec fn marshal_spec(args: Seq<Value>) -> Seq<HostValue> {
    args.map_values(|v: Value| to_foreign_spec(v))
}

/// Writes an argument list across the boundary, value by value.
pub fn marshal_args(args: &Vec<Value>) -> (r: Vec<HostValue>)
    ensures
        r@ == marshal_spec(args@),
{
    let mut r: Vec<HostValue> = Vec::new();
    let mut i: usize = 0;
    while i < args.len()
        invariant
            i <= args.len(),
            r@ =~= marshal_spec(args@.take(i as int)),
        decreases args.len() - i,
    {
        r.push(args[i].to_foreign());
        i += 1;
        proof {
            assert(args@.take(i as int).drop_last() =~= args@.take(i - 1));
            assert(r@ =~= marshal_spec(args@.take(i as int)));
        }
    }
    proof {
        assert(args@.take(args@.len() as int) =~= args@);
    }
    r
}

/// What reading a list of any-objects back against a list of declared
/// types returns, inside the store context with identity `store_id`: the
/// typed values, or the first extraction error in positional order.
pub open spec fn rehydrate_all_spec(
    raw: Seq<HostValue>,
    tys: Seq<ValueType>,
    store_id: u64,
) -> Result<Seq<Value>, Error>
    decreases raw.len(),
{
    if raw.len() == 0 {
        Ok(Seq::empty())
    } else {
        match rehydrate_all_spec(raw.drop_last(), tys.drop_last(), store_id) {
            Err(e) => Err(e),
            Ok(vs) => match rehydrate_spec(raw.last(), tys.last(), store_id) {
                Ok(v) => Ok(vs.push(v)),
                Err(e) => Err(e),
            },
        }
    }
}

/// Reads a list of any-objects back against a list of declared types,
/// position by position, inside the store context with identity `store_id`.
pub fn rehydrate_args(raw: &Vec<HostValue>, tys: &Vec<ValueType>, store_id: u64) -> (r: Result<
    Vec<Value>,
    Error,
>)
    requires
        raw@.len() == tys@.len(),
    ensures
        match r {
            Ok(vs) => rehydrate_all_spec(raw@, tys@, store_id) == Ok::<Seq<Value>, Error>(vs@),
            Err(e) => rehydrate_all_spec(raw@, tys@, store_id) == Err::<Seq<Value>, Error>(e),
        },
{
    let mut out: Vec<Value> = Vec::new();
    let mut i: usize = 0;
    while i < raw.len()
        invariant
            i <= raw.len(),
            raw@.len() == tys@.len(),
            rehydrate_all_spec(raw@.take(i as int), tys@.take(i as int), store_id) == Ok::<
                Seq<Value>,
                Error,
            >(out@),
        decreases raw.len() - i,
    {
        let v = match Value::rehydrate_typed(&raw[i], tys[i], store_id) {
            Ok(v) => v,
            Err(e) => {
                proof {
                    assert(raw@.take(i + 1).drop_last() =~= raw@.take(i as int));
                    assert(tys@.take(i + 1).drop_last() =~= tys@.take(i as int));
                    assert(raw@.take(i + 1).last() == raw@[i as int]);
                    lemma_rehydrate_error_sticks(raw@, tys@, store_id, i + 1);
                }
                return Err(e);
            },
        };
        out.push(v);
        i += 1;
        proof {
            assert(raw@.take(i as int).drop_last() =~= raw@.take(i - 1));
            assert(tys@.take(i as int).drop_last() =~= tys@.take(i - 1));
            assert(raw@.take(i as int).last() == raw@[i - 1]);
            assert(tys@.take(i as int).last() == tys@[i - 1]);
        }
    }
    proof {
        assert(raw@.take(raw@.len() as int) =~= raw@);
        assert(tys@.take(tys@.len() as int) =~= tys@);
    }
    Ok(out)
}

/// An extraction error in a prefix decides the whole list: reading any
/// extension still returns that first error.
proof fn lemma_rehydrate_error_sticks(
    raw: Seq<HostValue>,
    tys: Seq<ValueType>,
    store_id: u64,
    i: int,
)
    requires
        0 <= i <= raw.len(),
        raw.len() == tys.len(),
        rehydrate_all_spec(raw.take(i), tys.take(i), store_id) is Err,
    ensures
        rehydrate_all_spec(raw, tys, store_id) == rehydrate_all_spec(
            raw.take(i),
            tys.take(i),
            store_id,
        ),
    decreases raw.len() - i,
{
    if i == raw.len() {
        assert(raw.take(i) =~= raw);
        assert(tys.take(i) =~= tys);
    } else {
        assert(raw.take(i + 1).drop_last() =~= raw.take(i));
        assert(tys.take(i + 1).drop_last() =~= tys.take(i));
        lemma_rehydrate_error_sticks(raw, tys, store_id, i + 1);
    }
}

/// A well-typed value list written across the boundary reads back unchanged
/// against its own types, inside the store it belongs to.
pub proof fn lemma_marshal_round_trip(vs: Seq<Value>, tys: Seq<ValueType>, store_id: u64)
    requires
        values_match(vs, tys),
        forall|i: int| 0 <= i < vs.len() ==> carrier_in_store(vs[i], store_id),
    ensures
        rehydrate_all_spec(marshal_spec(vs), tys, store_id) == Ok::<Seq<Value>, Error>(vs),
    decreases vs.len(),
{
    if vs.len() == 0 {
        assert(marshal_spec(vs) =~= Seq::<HostValue>::empty());
        assert(vs =~= Seq::<Value>::empty());
    } else {
        assert(marshal_spec(vs).drop_last() =~= marshal_spec(vs.drop_last()));
        assert forall|i: int| 0 <= i < vs.drop_last().len() implies carrier_in_store(
            #[trigger] vs.drop_last()[i],
            store_id,
        ) by {
            assert(vs.drop_last()[i] == vs[i]);
        }
        assert forall|i: int| 0 <= i < vs.drop_last().len() implies ty_spec(
            #[trigger] vs.drop_last()[i],
        ) == tys.drop_last()[i] by {
            assert(vs.drop_last()[i] == vs[i]);
            assert(tys.drop_last()[i] == tys[i]);
        }
        lemma_marshal_round_trip(vs.drop_last(), tys.drop_last(), store_id);
        assert(ty_spec(vs.last()) == tys.last());
        assert(carrier_in_store(vs.last(), store_id));
        crate::conversion::lemma_round_trip_in_store(vs.last(), store_id);
        assert(marshal_spec(vs).last() == to_foreign_spec(vs.last()));
        assert(vs.drop_last().push(vs.last()) =~= vs);
        assert(rehydrate_all_spec(marshal_spec(vs), tys, store_id) == Ok::<Seq<Value>, Error>(
            vs.drop_last().push(vs.last()),
        ));
    }
}

/// Begins a call of an exported host callable: checks the argument count
/// against the declared parameters and writes the arguments across the
/// boundary. The bridge caller hands the result to the host callable.
///
/// Fails with [`Error::SignatureMismatch`] exactly when the argument count
/// disagrees with the declared parameter count.
pub fn marshal_call_args(params: &Vec<ValueType>, args: &Vec<Value>) -> (r: Result<
    Vec<HostValue>,
    Error,
>)
    ensures
        match r {
            Ok(raw) => args@.len() == params@.len() && raw@ == marshal_spec(args@),
            Err(e) => args@.len() != params@.len() && e == Error::SignatureMismatch,
        },
{
    if args.len() != params.len() {
        return Err(Error::SignatureMismatch);
    }
    Ok(marshal_args(args))
}

/// Finishes a call of an exported host callable: reads what the host
/// returned positionally against the declared result types, inside the
/// store context with identity `store_id`.
///
/// Fails with [`Error::SignatureMismatch`] when the host returned the wrong
/// number of values, and with the extraction's own error when one of them
/// does not inhabit its declared type.
pub fn read_call_results(raw: &Vec<HostValue>, results: &Vec<ValueType>, store_id: u64) -> (r:
    Result<Vec<Value>, Error>)
    ensures
        match r {
            Ok(vs) => raw@.len() == results@.len() && rehydrate_all_spec(raw@, results@, store_id)
                == Ok::<Seq<Value>, Error>(vs@),
            Err(e) => raw@.len() != results@.len() && e == Error::SignatureMismatch || raw@.len()
                == results@.len() && rehydrate_all_spec(raw@, results@, store_id) == Err::<
                Seq<Value>,
                Error,
            >(e),
        },
{
    if raw.len() != results.len() {
        return Err(Error::SignatureMismatch);
    }
    rehydrate_args(raw, results, store_id)
}

/// What calling a function handle does to a store and returns.
///
/// An exported handle reaches no live host inside the model, so its call
/// fails with [`Error::HostError`]; a bridge caller performs that hop
/// itself with [`marshal_args`] and [`rehydrate_args`]. A host-defined
/// handle re-enters its store: the arguments cross the boundary and are
/// type-checked against the registered signature, the closure runs, its
/// results are checked against the registered signature and cross the
/// boundary back, where they are read against the handle's declared
/// signature.
pub open spec fn call_spec<T, F: HostFn<T, V>, V>(
    f: Func,
    s: Store<T, F, V>,
    args: Seq<Value>,
) -> (Store<T, F, V>, Result<Seq<Value>, Error>) {
    if args.len() != func_ty_spec(f).params@.len() {
        (s, Err(Error::SignatureMismatch))
    } else {
        match f {
            Func::Exported { .. } => (s, Err(Error::HostError)),
            Func::HostDefined { store_id, index, ty } => {
                if store_id != s.id || index >= s.funcs@.len() {
                    (s, Err(Error::StoreDropped))
                } else {
                    let rec_ty = s.funcs@[index as int].ty;
                    if args.len() != rec_ty.params@.len() {
                        (s, Err(Error::SignatureMismatch))
                    } else {
                        match rehydrate_all_spec(marshal_spec(args), rec_ty.params@, s.id) {
                            Err(e) => (s, Err(e)),
                            Ok(typed) => {
                                let (s2, rr) = s.funcs@[index as int].hostfn.effect(s, typed);
                                match rr {
                                    Err(e) => (s2, Err(e)),
                                    Ok(res) => if !values_match(res, rec_ty.results@) {
                                        (s2, Err(Error::HostError))
                                    } else if res.len() != ty.results@.len() {
                                        (s2, Err(Error::SignatureMismatch))
                                    } else {
                                        match rehydrate_all_spec(
                                            marshal_spec(res),
                                            ty.results@,
                                            s2.id,
                                        ) {
                                            Err(e) => (s2, Err(e)),
                                            Ok(out) => (s2, Ok(out)),
                                        }
                                    },
                                }
                            },
                        }
                    }
                }
            },
        }
    }
}

impl Func {
    /// An exact copy of the handle.
    pub fn duplicate(&self) -> (r: Func)
        ensures
            r == *self,
    {
        match self {
            Func::Exported { handle, ty } => Func::Exported {
                handle: *handle,
                ty: share_func_type(ty),
            },
            Func::HostDefined { store_id, index, ty } => Func::HostDefined {
                store_id: *store_id,
                index: *index,
                ty: share_func_type(ty),
            },
        }
    }

    /// The declared signature.
    pub fn ty(&self) -> (r: &FuncType)
        ensures
            *r == func_ty_spec(*self),
    {
        match self {
            Func::Exported { ty, .. } => ty,
            Func::HostDefined { ty, .. } => ty,
        }
    }

    /// Registers `hostfn` in the owning store under the declared signature
    /// and returns the handle that keys it; the closure lives with the
    /// store, and the handle holds no owning reference to it.
    pub fn new<T, F: HostFn<T, V>, V>(store: &mut Store<T, F, V>, ty: Rc<FuncType>, hostfn: F) -> (r:
        Func)
        requires
            old(store).funcs@.len() < usize::MAX,
        ensures
            final(store).funcs@ == old(store).funcs@.push(FuncRecord { hostfn, ty }),
            r == (Func::HostDefined {
                store_id: old(store).id,
                index: old(store).funcs@.len() as usize,
                ty,
            }),
            final(store).id == old(store).id,
            final(store).engine == old(store).engine,
            final(store).data == old(store).data,
            final(store).instances == old(store).instances,
            final(store).payloads == old(store).payloads,
            final(store).memories == old(store).memories,
            final(store).tables == old(store).tables,
            final(store).globals == old(store).globals,
    {
        let handle_ty = share_func_type(&ty);
        let index = store.funcs.len();
        store.funcs.push(FuncRecord { hostfn, ty });
        Func::HostDefined { store_id: store.id, index, ty: handle_ty }
    }

    /// Wraps an exported host callable under the signature the external
    /// parser declared for it.
    ///
    /// Fails with [`Error::InvariantViolation`] when the export is not a
    /// callable.
    pub fn from_exported_function(value: &HostValue, ty: Rc<FuncType>) -> (r: Result<Func, Error>)
        ensures
            match r {
                Ok(g) => (*value) matches HostValue::Func(f) && g == retype_spec(f, ty),
                Err(e) => !((*value) matches HostValue::Func(_)) && e == Error::InvariantViolation,
            },
    {
        match value {
            HostValue::Func(f) => {
                match f {
                    Func::Exported { handle, .. } => Ok(Func::Exported { handle: *handle, ty }),
                    Func::HostDefined { store_id, index, .. } => Ok(Func::HostDefined {
                        store_id: *store_id,
                        index: *index,
                        ty,
                    }),
                }
            },
            _ => Err(Error::InvariantViolation),
        }
    }

    /// Calls the function with a typed argument list, exactly as
    /// [`call_spec`] describes it.
    ///
    /// A host-defined function re-enters the store: its closure receives
    /// the store exclusively and may call further functions before this
    /// call returns.
    pub fn call<T, F: HostFn<T, V>, V>(&self, store: &mut Store<T, F, V>, args: &Vec<Value>) -> (r:
        Result<Vec<Value>, Error>)
        ensures
            ({
                let (s2, rr) = call_spec(*self, *old(store), args@);
                &&& *final(store) == s2
                &&& match r {
                    Ok(v) => rr == Ok::<Seq<Value>, Error>(v@),
                    Err(e) => rr == Err::<Seq<Value>, Error>(e),
                }
            }),
    {
        let n_params = match self {
            Func::Exported { ty, .. } => ty.params.len(),
            Func::HostDefined { ty, .. } => ty.params.len(),
        };
        if args.len() != n_params {
            return Err(Error::SignatureMismatch);
        }
        match self {
            Func::Exported { .. } => Err(Error::HostError),
            Func::HostDefined { store_id, index, ty } => {
                if *store_id != store.id || *index >= store.funcs.len() {
                    return Err(Error::StoreDropped);
                }
                let rec_ty = share_func_type(&store.funcs[*index].ty);
                if args.len() != rec_ty.params.len() {
                    return Err(Error::SignatureMismatch);
                }
                let raw = marshal_args(args);
                let typed = match rehydrate_args(&raw, &rec_ty.params, store.id) {
                    Ok(v) => v,
                    Err(e) => {
                        return Err(e);
                    },
                };
                let closure = store.funcs[*index].hostfn.duplicate();
                let res = match closure.call(store, &typed) {
                    Ok(v) => v,
                    Err(e) => {
                        return Err(e);
                    },
                };
                if !check_values_match(&res, &rec_ty.results) {
                    return Err(Error::HostError);
                }
                if res.len() != ty.results.len() {
                    return Err(Error::SignatureMismatch);
                }
                let raw_out = marshal_args(&res);
                match rehydrate_args(&raw_out, &ty.results, store.id) {
                    Ok(v) => Ok(v),
                    Err(e) => Err(e),
                }
            },
        }
    }
}

/// Whether a list of values inhabits a list of declared types, exactly as
/// [`values_match`] states it.
pub fn check_values_match(vs: &Vec<Value>, tys: &Vec<ValueType>) -> (r: bool)
    ensures
        r == values_match(vs@, tys@),
{
    if vs.len() != tys.len() {
        return false;
    }
    let mut i: usize = 0;
    while i < vs.len()
        invariant
            i <= vs.len(),
            vs@.len() == tys@.len(),
            forall|k: int| 0 <= k < i ==> ty_spec(vs@[k]) == tys@[k],
        decreases vs.len() - i,
    {
        let t = vs[i].ty();
        if !value_type_eq(t, tys[i]) {
            return false;
        }
        i += 1;
    }
    true
}

/// Whether two value types are the same.
fn value_type_eq(a: ValueType, b: ValueType) -> (r: bool)
    ensures
        r == (a == b),
{
    match (a, b) {
        (ValueType::I32, ValueType::I32) => true,
        (ValueType::I64, ValueType::I64) => true,
        (ValueType::F32, ValueType::F32) => true,
        (ValueType::F64, ValueType::F64) => true,
        (ValueType::FuncRef, ValueType::FuncRef) => true,
        (ValueType::ExternRef, ValueType::ExternRef) => true,
        _ => false,
    }
}

/// Calling a host-defined function is exactly running its closure: with the
/// handle the store minted for slot `k`, well-typed arguments of this
/// store, and a closure that honours the store's identity and returns
/// well-typed results of it, the call's effect and results are the
/// closure's own.
pub proof fn lemma_host_call_transparent<T, F: HostFn<T, V>, V>(
    s: Store<T, F, V>,
    k: usize,
    args: Seq<Value>,
)
    requires
        k < s.funcs@.len(),
        values_match(args, s.funcs@[k as int].ty.params@),
        forall|i: int| 0 <= i < args.len() ==> carrier_in_store(args[i], s.id),
        ({
            let (s2, rr) = s.funcs@[k as int].hostfn.effect(s, args);
            &&& s2.id == s.id
            &&& match rr {
                Ok(res) => values_match(res, s.funcs@[k as int].ty.results@) && forall|i: int|
                    0 <= i < res.len() ==> carrier_in_store(#[trigger] res[i], s.id),
                Err(_) => true,
            }
        }),
    ensures
        call_spec(
            Func::HostDefined { store_id: s.id, index: k, ty: s.funcs@[k as int].ty },
            s,
            args,
        ) == s.funcs@[k as int].hostfn.effect(s, args),
{
    let f = Func::HostDefined { store_id: s.id, index: k, ty: s.funcs@[k as int].ty };
    let rec_ty = s.funcs@[k as int].ty;
    lemma_marshal_round_trip(args, rec_ty.params@, s.id);
    let (s2, rr) = s.funcs@[k as int].hostfn.effect(s, args);
    match rr {
        Ok(res) => {
            lemma_marshal_round_trip(res, rec_ty.results@, s2.id);
        },
        Err(_) => {},
    }
}

} // verus!
