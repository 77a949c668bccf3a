use std::rc::Rc;

use wasm_host_layer::{
    marshal_call_args, read_call_results, EchoHost, Engine, Error, ExternRef, Func, FuncType,
    HostFn, HostValue, Store, Value, ValueType,
};

const STR_TAG: u64 = 1;
const NUM_TAG: u64 = 2;

#[test]
fn store_owns_user_state() {
    let engine = Engine::new();
    let mut store: Store<i64, EchoHost, String> = Store::new(&engine, 1, 10);
    assert_eq!(*store.data(), 10);
    *store.data_mut() = 11;
    assert_eq!(*store.data(), 11);
    let ctx = store.as_context();
    assert_eq!(*ctx.data(), 11);
    assert_eq!(store.into_data(), 11);
}

#[test]
fn externref_round_trip() {
    let engine = Engine::new();
    let mut store: Store<(), EchoHost, String> = Store::new(&engine, 1, ());
    let r = ExternRef::new(&mut store, STR_TAG, String::from("hello"));
    assert_eq!(r.downcast(&store, STR_TAG), Ok(&String::from("hello")));
    assert_eq!(r.downcast(&store, NUM_TAG), Err(Error::TypeMismatch));
}

#[test]
fn externref_cross_store_is_refused() {
    let engine = Engine::new();
    let mut store_a: Store<(), EchoHost, String> = Store::new(&engine, 1, ());
    let store_b: Store<(), EchoHost, String> = Store::new(&engine, 2, ());
    let r = ExternRef::new(&mut store_a, STR_TAG, String::from("hello"));
    assert_eq!(r.downcast(&store_b, STR_TAG), Err(Error::CrossStore));
}

#[test]
fn identity_function_returns_argument() {
    let engine = Engine::new();
    let mut store: Store<(), EchoHost, String> = Store::new(&engine, 1, ());
    let sig = Rc::new(FuncType::new(vec![ValueType::I32], vec![ValueType::I32]));
    let id = Func::new(&mut store, sig, EchoHost {});
    let out = id.call(&mut store, &vec![Value::I32(42)]).unwrap();
    assert_eq!(out.len(), 1);
    assert!(matches!(out[0], Value::I32(42)));
}

#[test]
fn call_checks_arity() {
    let engine = Engine::new();
    let mut store: Store<(), EchoHost, String> = Store::new(&engine, 1, ());
    let sig = Rc::new(FuncType::new(vec![ValueType::I32], vec![ValueType::I32]));
    let id = Func::new(&mut store, sig, EchoHost {});
    assert!(matches!(
        id.call(&mut store, &vec![]),
        Err(Error::SignatureMismatch)
    ));
    assert!(matches!(
        id.call(&mut store, &vec![Value::I32(1), Value::I32(2)]),
        Err(Error::SignatureMismatch)
    ));
}

#[test]
fn call_checks_result_shape() {
    let engine = Engine::new();
    let mut store: Store<(), EchoHost, String> = Store::new(&engine, 1, ());
    // The echo closure returns its single argument, but the signature
    // promises two results: the shim refuses the results it got back.
    let sig = Rc::new(FuncType::new(
        vec![ValueType::I32],
        vec![ValueType::I32, ValueType::I32],
    ));
    let id = Func::new(&mut store, sig, EchoHost {});
    assert!(matches!(
        id.call(&mut store, &vec![Value::I32(1)]),
        Err(Error::HostError)
    ));
}

#[test]
fn call_with_wrong_store_fails_store_dropped() {
    let engine = Engine::new();
    let mut store_a: Store<(), EchoHost, String> = Store::new(&engine, 1, ());
    let mut store_b: Store<(), EchoHost, String> = Store::new(&engine, 2, ());
    let sig = Rc::new(FuncType::new(vec![], vec![]));
    let f = Func::new(&mut store_a, sig, EchoHost {});
    assert!(matches!(
        f.call(&mut store_b, &vec![]),
        Err(Error::StoreDropped)
    ));
}

#[test]
fn exported_handle_needs_live_host() {
    let engine = Engine::new();
    let mut store: Store<(), EchoHost, String> = Store::new(&engine, 1, ());
    let sig = Rc::new(FuncType::new(vec![], vec![]));
    let f = Func::Exported { handle: 99, ty: sig };
    assert!(matches!(f.call(&mut store, &vec![]), Err(Error::HostError)));
}

#[test]
fn externref_passes_through_identity_function() {
    let engine = Engine::new();
    let mut store: Store<(), EchoHost, String> = Store::new(&engine, 1, ());
    let r = ExternRef::new(&mut store, STR_TAG, String::from("hello"));
    let sig = Rc::new(FuncType::new(
        vec![ValueType::ExternRef],
        vec![ValueType::ExternRef],
    ));
    let id = Func::new(&mut store, sig, EchoHost {});
    let out = id
        .call(&mut store, &vec![Value::ExternRef(Some(r))])
        .unwrap();
    let returned = match &out[0] {
        Value::ExternRef(Some(r2)) => *r2,
        _ => panic!("expected an extern reference back"),
    };
    assert_eq!(returned.downcast(&store, STR_TAG), Ok(&String::from("hello")));
}

/// Host behaviours for the re-entrancy scenarios: each variant is one
/// closure a test registers.
enum TestHost {
    /// Returns the sum of two 32-bit integers.
    AddI32,
    /// Adds the given amount to the user state and returns nothing.
    BumpData(i64),
    /// Calls the given function with the same arguments and passes its
    /// results through, after bumping the user state by one.
    CallThrough(Func),
    /// Calls the given function, discards its results, and returns the
    /// user state as seen after that call came back.
    CallThenReadData(Func),
}

impl Clone for TestHost {
    fn clone(&self) -> TestHost {
        match self {
            TestHost::AddI32 => TestHost::AddI32,
            TestHost::BumpData(n) => TestHost::BumpData(*n),
            TestHost::CallThrough(f) => TestHost::CallThrough(f.duplicate()),
            TestHost::CallThenReadData(f) => TestHost::CallThenReadData(f.duplicate()),
        }
    }
}

impl HostFn<i64, String> for TestHost {
    fn duplicate(&self) -> TestHost {
        self.clone()
    }

    fn call(
        &self,
        store: &mut Store<i64, TestHost, String>,
        args: &Vec<Value>,
    ) -> Result<Vec<Value>, Error> {
        match self {
            TestHost::AddI32 => {
                let (a, b) = match (&args[0], &args[1]) {
                    (Value::I32(a), Value::I32(b)) => (*a, *b),
                    _ => return Err(Error::ConversionError),
                };
                Ok(vec![Value::I32(a.wrapping_add(b))])
            }
            TestHost::BumpData(n) => {
                *store.data_mut() += n;
                Ok(vec![])
            }
            TestHost::CallThrough(f) => {
                *store.data_mut() += 1;
                f.call(store, args)
            }
            TestHost::CallThenReadData(f) => {
                f.call(store, &vec![])?;
                Ok(vec![Value::I64(*store.data())])
            }
        }
    }
}

#[test]
fn imported_add_reached_through_exported_wrapper() {
    let engine = Engine::new();
    let mut store: Store<i64, TestHost, String> = Store::new(&engine, 1, 0);
    let add_sig = Rc::new(FuncType::new(
        vec![ValueType::I32, ValueType::I32],
        vec![ValueType::I32],
    ));
    let add = Func::new(&mut store, Rc::clone(&add_sig), TestHost::AddI32);
    let call_add = Func::new(&mut store, add_sig, TestHost::CallThrough(add));
    let out = call_add
        .call(&mut store, &vec![Value::I32(3), Value::I32(4)])
        .unwrap();
    assert_eq!(out.len(), 1);
    assert!(matches!(out[0], Value::I32(7)));
}

#[test]
fn reentrant_host_calls_complete_and_share_state() {
    let engine = Engine::new();
    let mut store: Store<i64, TestHost, String> = Store::new(&engine, 1, 0);
    let empty_sig = Rc::new(FuncType::new(vec![], vec![]));
    let read_sig = Rc::new(FuncType::new(vec![], vec![ValueType::I64]));
    // C mutates the user state; B calls C; A calls B and then reads the
    // state: three stacked exclusive contexts on one store, and C's
    // mutation is visible to A once B has returned.
    let c = Func::new(&mut store, Rc::clone(&empty_sig), TestHost::BumpData(10));
    let b = Func::new(&mut store, empty_sig, TestHost::CallThrough(c));
    let a = Func::new(&mut store, read_sig, TestHost::CallThenReadData(b));
    let out = a.call(&mut store, &vec![]).unwrap();
    assert_eq!(out.len(), 1);
    // B's frame added 1 and C added 10; A saw both.
    assert!(matches!(out[0], Value::I64(11)));
    assert_eq!(*store.data(), 11);
}

#[test]
fn closure_error_propagates_to_the_caller() {
    let engine = Engine::new();
    let mut store: Store<i64, TestHost, String> = Store::new(&engine, 1, 0);
    let sig = Rc::new(FuncType::new(
        vec![ValueType::I64, ValueType::I64],
        vec![ValueType::I32],
    ));
    // The adder expects 32-bit integers; 64-bit arguments reach the closure
    // typed as declared, and the closure's own refusal comes back.
    let add = Func::new(&mut store, sig, TestHost::AddI32);
    assert!(matches!(
        add.call(&mut store, &vec![Value::I64(1), Value::I64(2)]),
        Err(Error::ConversionError)
    ));
}

#[test]
fn exported_call_marshals_and_reads_back() {
    let params = vec![ValueType::I32, ValueType::F64];
    let args = vec![Value::I32(3), Value::F64(1.5f64.to_bits())];
    let raw = marshal_call_args(&params, &args).unwrap();
    assert!(matches!(raw[0], HostValue::Int(3)));
    assert!(matches!(raw[1], HostValue::F64(_)));
    assert!(matches!(
        marshal_call_args(&params, &vec![Value::I32(3)]),
        Err(Error::SignatureMismatch)
    ));

    let results = vec![ValueType::I32];
    let back = read_call_results(&vec![HostValue::Int(9)], &results, 1).unwrap();
    assert!(matches!(back[0], Value::I32(9)));
    assert!(matches!(
        read_call_results(&vec![], &results, 1),
        Err(Error::SignatureMismatch)
    ));
    assert!(matches!(
        read_call_results(&vec![HostValue::Null], &results, 1),
        Err(Error::ConversionError)
    ));
}
