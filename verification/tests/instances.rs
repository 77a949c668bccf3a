use std::rc::Rc;

use wasm_host_layer::{
    EchoHost, Engine, Error, Extern, ExternType, Func, FuncType, HostValue, Imports, Instance,
    Memory, MemoryType, Module, ParsedModule, Store, Table, TableType, Value, ValueType,
};

type S = Store<(), EchoHost, String>;

fn fresh_store(id: u64) -> S {
    Store::new(&Engine::new(), id, ())
}

fn id_sig() -> Rc<FuncType> {
    Rc::new(FuncType::new(vec![ValueType::I32], vec![ValueType::I32]))
}

#[test]
fn imports_group_by_module_name() {
    let mut store = fresh_store(1);
    let sig = Rc::new(FuncType::new(vec![], vec![]));
    let f = Func::new(&mut store, sig, EchoHost {});
    let mut imports = Imports::new();
    imports.define(
        String::from("env"),
        String::from("a"),
        Extern::Func(f.duplicate()),
    );
    imports.define(
        String::from("env"),
        String::from("b"),
        Extern::Func(f.duplicate()),
    );
    imports.define(String::from("other"), String::from("c"), Extern::Func(f));
    let grouped = imports.to_imports_object().unwrap();
    assert_eq!(grouped.modules.len(), 2);
    assert_eq!(grouped.modules[0].module, "env");
    assert_eq!(grouped.modules[0].items.len(), 2);
    assert_eq!(grouped.modules[0].items[0].0, "a");
    assert_eq!(grouped.modules[0].items[1].0, "b");
    assert_eq!(grouped.modules[1].module, "other");
    assert_eq!(grouped.modules[1].items.len(), 1);
    assert!(matches!(grouped.modules[0].items[0].1, HostValue::Func(_)));
}

#[test]
fn duplicate_imports_are_refused() {
    let mut store = fresh_store(1);
    let sig = Rc::new(FuncType::new(vec![], vec![]));
    let f = Func::new(&mut store, sig, EchoHost {});
    let mut imports = Imports::new();
    imports.define(
        String::from("env"),
        String::from("a"),
        Extern::Func(f.duplicate()),
    );
    imports.define(String::from("env"), String::from("a"), Extern::Func(f));
    assert!(matches!(
        imports.to_imports_object(),
        Err(Error::DuplicateImport)
    ));
}

#[test]
fn instantiation_resolves_declared_exports() {
    let mut store = fresh_store(1);
    let id = Func::new(&mut store, id_sig(), EchoHost {});
    let memory = Memory::new(&mut store, MemoryType { minimum: 1, maximum: Some(3) }).unwrap();
    let parsed = ParsedModule {
        imports: vec![],
        exports: vec![
            (String::from("id"), ExternType::Func(id_sig())),
            (
                String::from("memory"),
                ExternType::Memory(MemoryType { minimum: 1, maximum: Some(3) }),
            ),
        ],
    };
    let module = Module::new(7, parsed);
    let host_exports = vec![
        (String::from("id"), HostValue::Func(id)),
        (String::from("memory"), HostValue::Memory(memory)),
    ];
    let instance = Instance::new(&mut store, &module, 8, &host_exports).unwrap();

    let exported = instance.get_export(&store, &String::from("id")).unwrap();
    let f = match exported {
        Extern::Func(f) => f,
        _ => panic!("expected a function export"),
    };
    let out = f.call(&mut store, &vec![Value::I32(42)]).unwrap();
    assert_eq!(out.len(), 1);
    assert!(matches!(out[0], Value::I32(42)));

    let exported = instance
        .get_export(&store, &String::from("memory"))
        .unwrap();
    let m = match exported {
        Extern::Memory(m) => m,
        _ => panic!("expected a memory export"),
    };
    assert_eq!(m.size(&store), 1);

    assert!(instance.get_export(&store, &String::from("missing")).is_none());
    let all = instance.exports(&store);
    assert_eq!(all.len(), 2);
    assert_eq!(all[0].0, "id");
    assert_eq!(all[1].0, "memory");
}

#[test]
fn export_without_declared_signature_is_invariant_violation() {
    let mut store = fresh_store(1);
    let id = Func::new(&mut store, id_sig(), EchoHost {});
    let module = Module::new(7, ParsedModule { imports: vec![], exports: vec![] });
    let host_exports = vec![(String::from("id"), HostValue::Func(id))];
    assert!(matches!(
        Instance::new(&mut store, &module, 8, &host_exports),
        Err(Error::InvariantViolation)
    ));
}

#[test]
fn export_of_wrong_host_class_is_invariant_violation() {
    let mut store = fresh_store(1);
    let parsed = ParsedModule {
        imports: vec![],
        exports: vec![(String::from("id"), ExternType::Func(id_sig()))],
    };
    let module = Module::new(7, parsed);
    let host_exports = vec![(String::from("id"), HostValue::Int(3))];
    assert!(matches!(
        Instance::new(&mut store, &module, 8, &host_exports),
        Err(Error::InvariantViolation)
    ));
}

#[test]
fn short_exported_table_is_invariant_violation() {
    let mut store = fresh_store(1);
    let table_ty = TableType { element: ValueType::FuncRef, minimum: 2, maximum: None };
    let table = Table::new(&mut store, table_ty, &Value::FuncRef(None)).unwrap();
    let declared = TableType { element: ValueType::FuncRef, minimum: 3, maximum: None };
    let parsed = ParsedModule {
        imports: vec![],
        exports: vec![(String::from("table"), ExternType::Table(declared))],
    };
    let module = Module::new(7, parsed);
    let host_exports = vec![(String::from("table"), HostValue::Table(table))];
    assert!(matches!(
        Instance::new(&mut store, &module, 8, &host_exports),
        Err(Error::InvariantViolation)
    ));
}

#[test]
fn call_indirect_through_table_reaches_host_function() {
    let mut store = fresh_store(1);
    let table_ty = TableType { element: ValueType::FuncRef, minimum: 2, maximum: None };
    let table = Table::new(&mut store, table_ty, &Value::FuncRef(None)).unwrap();
    let host_fn = Func::new(&mut store, id_sig(), EchoHost {});
    table
        .set(&mut store, 0, &Value::FuncRef(Some(host_fn)))
        .unwrap();
    let fetched = match table.get(&store, 0).unwrap() {
        Some(Value::FuncRef(Some(f))) => f,
        _ => panic!("expected a function at index 0"),
    };
    let out = fetched.call(&mut store, &vec![Value::I32(9)]).unwrap();
    assert!(matches!(out[0], Value::I32(9)));
}

#[test]
fn module_reports_parsed_signatures() {
    let parsed = ParsedModule {
        imports: vec![(String::from("env.add"), ExternType::Func(id_sig()))],
        exports: vec![(String::from("id"), ExternType::Func(id_sig()))],
    };
    let module = Module::new(3, parsed);
    assert_eq!(module.handle, 3);
    assert_eq!(module.imports().len(), 1);
    assert_eq!(module.imports()[0].0, "env.add");
    assert_eq!(module.exports().len(), 1);
    let ty = module.parsed.export_ty(&String::from("id"));
    assert!(matches!(ty, Some(ExternType::Func(_))));
    assert!(module.parsed.export_ty(&String::from("nope")).is_none());
}

#[test]
fn instance_registration_is_stable() {
    let mut store = fresh_store(1);
    let module = Module::new(7, ParsedModule { imports: vec![], exports: vec![] });
    let first = Instance::new(&mut store, &module, 8, &vec![]).unwrap();
    let second = Instance::new(&mut store, &module, 9, &vec![]).unwrap();
    assert_ne!(first.id, second.id);
    assert!(store.get_instance(first.id).is_some());
    assert_eq!(store.get_instance(second.id).unwrap().handle, 9);
}
