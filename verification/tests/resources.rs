use wasm_host_layer::{
    EchoHost, Engine, Error, Global, GlobalType, HostValue, Memory, MemoryType, Store, Table,
    TableType, Value, ValueType,
};

type S = Store<(), EchoHost, String>;

fn fresh_store(id: u64) -> S {
    Store::new(&Engine::new(), id, ())
}

#[test]
fn memory_grow_scenario() {
    let mut store = fresh_store(1);
    let ty = MemoryType { minimum: 1, maximum: Some(3) };
    let memory = Memory::new(&mut store, ty).unwrap();
    assert_eq!(memory.size(&store), 1);
    assert_eq!(memory.grow(&mut store, 2), Ok(1));
    assert_eq!(memory.grow(&mut store, 1), Err(Error::HostError));
    assert_eq!(memory.size(&store), 3);
    assert_eq!(memory.ty(), ty);
}

#[test]
fn memory_refuses_bad_limits() {
    let mut store = fresh_store(1);
    let ty = MemoryType { minimum: 4, maximum: Some(3) };
    assert!(matches!(Memory::new(&mut store, ty), Err(Error::HostError)));
    let ty = MemoryType { minimum: 65537, maximum: None };
    assert!(matches!(Memory::new(&mut store, ty), Err(Error::HostError)));
}

#[test]
fn memory_unbounded_grow_stops_at_page_ceiling() {
    let mut store = fresh_store(1);
    let ty = MemoryType { minimum: 65535, maximum: None };
    let memory = Memory::new(&mut store, ty).unwrap();
    assert_eq!(memory.grow(&mut store, 1), Ok(65535));
    assert_eq!(memory.grow(&mut store, 1), Err(Error::HostError));
    assert_eq!(memory.size(&store), 65536);
}

#[test]
fn memory_export_checks_minimum() {
    let mut store = fresh_store(1);
    let memory = Memory::new(&mut store, MemoryType { minimum: 1, maximum: None }).unwrap();
    let handle = HostValue::Memory(memory);
    let declared = MemoryType { minimum: 1, maximum: Some(2) };
    let wrapped = Memory::from_exported_memory(&store, &handle, declared).unwrap();
    assert_eq!(wrapped.ty(), declared);
    let too_demanding = MemoryType { minimum: 2, maximum: None };
    assert!(matches!(
        Memory::from_exported_memory(&store, &handle, too_demanding),
        Err(Error::InvariantViolation)
    ));
    assert!(matches!(
        Memory::from_exported_memory(&store, &HostValue::Null, declared),
        Err(Error::InvariantViolation)
    ));
}

#[test]
fn table_grow_returns_prior_length() {
    let mut store = fresh_store(1);
    let ty = TableType { element: ValueType::FuncRef, minimum: 2, maximum: Some(4) };
    let table = Table::new(&mut store, ty, &Value::FuncRef(None)).unwrap();
    assert_eq!(table.size(&store), 2);
    assert_eq!(table.grow(&mut store, 2, &Value::FuncRef(None)), Ok(2));
    assert_eq!(table.size(&store), 4);
    assert_eq!(
        table.grow(&mut store, 1, &Value::FuncRef(None)),
        Err(Error::HostError)
    );
    assert_eq!(table.size(&store), 4);
}

#[test]
fn table_new_checks_init_and_limits() {
    let mut store = fresh_store(1);
    let ty = TableType { element: ValueType::FuncRef, minimum: 1, maximum: Some(2) };
    assert!(matches!(
        Table::new(&mut store, ty, &Value::I32(0)),
        Err(Error::HostError)
    ));
    let bad = TableType { element: ValueType::FuncRef, minimum: 3, maximum: Some(2) };
    assert!(matches!(
        Table::new(&mut store, bad, &Value::FuncRef(None)),
        Err(Error::HostError)
    ));
}

#[test]
fn table_set_and_get() {
    let mut store = fresh_store(1);
    let ty = TableType { element: ValueType::ExternRef, minimum: 2, maximum: None };
    let table = Table::new(&mut store, ty, &Value::ExternRef(None)).unwrap();
    assert!(matches!(table.get(&store, 0), Ok(Some(Value::ExternRef(None)))));
    assert!(matches!(table.get(&store, 2), Ok(None)));
    assert!(matches!(
        table.set(&mut store, 2, &Value::ExternRef(None)),
        Err(Error::OutOfBounds)
    ));
    assert!(matches!(
        table.set(&mut store, 0, &Value::I64(1)),
        Err(Error::HostError)
    ));
    assert!(matches!(table.set(&mut store, 0, &Value::ExternRef(None)), Ok(())));
}

#[test]
fn table_export_requires_funcref() {
    let mut store = fresh_store(1);
    let ty = TableType { element: ValueType::FuncRef, minimum: 2, maximum: None };
    let table = Table::new(&mut store, ty, &Value::FuncRef(None)).unwrap();
    let handle = HostValue::Table(table);
    let wrapped = Table::from_exported_table(&store, &handle, ty).unwrap();
    assert_eq!(wrapped.ty(), ty);
    let externref_ty = TableType { element: ValueType::ExternRef, minimum: 2, maximum: None };
    assert!(matches!(
        Table::from_exported_table(&store, &handle, externref_ty),
        Err(Error::InvariantViolation)
    ));
    let demanding = TableType { element: ValueType::FuncRef, minimum: 3, maximum: None };
    assert!(matches!(
        Table::from_exported_table(&store, &handle, demanding),
        Err(Error::InvariantViolation)
    ));
}

#[test]
fn global_get_set() {
    let mut store = fresh_store(1);
    let ty = GlobalType { content: ValueType::I32, mutable: true };
    let global = Global::new(&mut store, ty, &Value::I32(5)).unwrap();
    assert!(matches!(global.get(&store), Ok(Value::I32(5))));
    assert!(matches!(global.set(&mut store, &Value::I32(6)), Ok(())));
    assert!(matches!(global.get(&store), Ok(Value::I32(6))));
    assert!(matches!(
        global.set(&mut store, &Value::F64(0)),
        Err(Error::HostError)
    ));
}

#[test]
fn global_immutable_refuses_set() {
    let mut store = fresh_store(1);
    let ty = GlobalType { content: ValueType::F64, mutable: false };
    let bits = 2.5f64.to_bits();
    let global = Global::new(&mut store, ty, &Value::F64(bits)).unwrap();
    assert!(matches!(
        global.set(&mut store, &Value::F64(bits)),
        Err(Error::HostError)
    ));
    match global.get(&store) {
        Ok(Value::F64(b)) => assert_eq!(f64::from_bits(b), 2.5),
        _ => panic!("expected an f64 global"),
    }
}

#[test]
fn global_new_checks_value_type() {
    let mut store = fresh_store(1);
    let ty = GlobalType { content: ValueType::I64, mutable: true };
    assert!(matches!(
        Global::new(&mut store, ty, &Value::F32(0)),
        Err(Error::HostError)
    ));
}
