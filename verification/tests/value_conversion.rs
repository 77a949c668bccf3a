use wasm_host_layer::{
    Error, GlobalType, HostValue, MemoryType, TableType, Value, ValueType,
};

#[test]
fn descriptor_strings() {
    assert_eq!(ValueType::I32.as_js_descriptor(), "i32");
    assert_eq!(ValueType::I64.as_js_descriptor(), "i64");
    assert_eq!(ValueType::F32.as_js_descriptor(), "f32");
    assert_eq!(ValueType::F64.as_js_descriptor(), "f64");
    assert_eq!(ValueType::FuncRef.as_js_descriptor(), "anyfunc");
    assert_eq!(ValueType::ExternRef.as_js_descriptor(), "externref");
}

#[test]
fn value_types() {
    assert_eq!(Value::I32(1).ty(), ValueType::I32);
    assert_eq!(Value::I64(1).ty(), ValueType::I64);
    assert_eq!(Value::F32(0).ty(), ValueType::F32);
    assert_eq!(Value::F64(0).ty(), ValueType::F64);
    assert_eq!(Value::FuncRef(None).ty(), ValueType::FuncRef);
    assert_eq!(Value::ExternRef(None).ty(), ValueType::ExternRef);
}

#[test]
fn numeric_round_trip_i32() {
    let v = Value::I32(-42);
    let h = v.to_foreign();
    assert!(matches!(h, HostValue::Int(-42)));
    let back = Value::from_foreign_typed(&h, ValueType::I32).unwrap();
    assert!(matches!(back, Value::I32(-42)));
}

#[test]
fn numeric_round_trip_i64() {
    let v = Value::I64(1 << 40);
    let h = v.to_foreign();
    let back = Value::from_foreign_typed(&h, ValueType::I64).unwrap();
    assert!(matches!(back, Value::I64(x) if x == 1 << 40));
}

#[test]
fn numeric_round_trip_f32_bits() {
    let bits = 1.5f32.to_bits();
    let v = Value::F32(bits);
    let h = v.to_foreign();
    let back = Value::from_foreign_typed(&h, ValueType::F32).unwrap();
    match back {
        Value::F32(b) => assert_eq!(f32::from_bits(b), 1.5f32),
        _ => panic!("expected an f32"),
    }
}

#[test]
fn numeric_round_trip_f64_bits() {
    let bits = (-0.25f64).to_bits();
    let v = Value::F64(bits);
    let h = v.to_foreign();
    let back = Value::from_foreign_typed(&h, ValueType::F64).unwrap();
    match back {
        Value::F64(b) => assert_eq!(f64::from_bits(b), -0.25f64),
        _ => panic!("expected an f64"),
    }
}

#[test]
fn int_extraction_is_range_checked() {
    let too_big = HostValue::Int(i64::from(i32::MAX) + 1);
    assert!(matches!(
        Value::from_foreign_typed(&too_big, ValueType::I32),
        Err(Error::ConversionError)
    ));
    let fits = HostValue::Int(i64::from(i32::MIN));
    assert!(matches!(
        Value::from_foreign_typed(&fits, ValueType::I32),
        Ok(Value::I32(i32::MIN))
    ));
}

#[test]
fn mismatched_shapes_are_refused() {
    assert!(matches!(
        Value::from_foreign_typed(&HostValue::F64(0), ValueType::F32),
        Err(Error::ConversionError)
    ));
    assert!(matches!(
        Value::from_foreign_typed(&HostValue::Null, ValueType::I64),
        Err(Error::ConversionError)
    ));
}

#[test]
fn carriers_refused_without_context() {
    let null = Value::FuncRef(None).to_foreign();
    assert!(matches!(null, HostValue::Null));
    assert!(matches!(
        Value::from_foreign_typed(&null, ValueType::FuncRef),
        Err(Error::ConversionError)
    ));
    assert!(matches!(
        Value::from_foreign_typed(&null, ValueType::ExternRef),
        Err(Error::ConversionError)
    ));
}

#[test]
fn carriers_rehydrate_in_context() {
    let h = Value::FuncRef(None).to_foreign();
    let back = Value::rehydrate_typed(&h, ValueType::FuncRef, 7).unwrap();
    assert!(matches!(back, Value::FuncRef(None)));
    let back = Value::rehydrate_typed(&HostValue::Null, ValueType::ExternRef, 7).unwrap();
    assert!(matches!(back, Value::ExternRef(None)));
}

#[test]
fn constructor_descriptors() {
    let t = TableType { element: ValueType::FuncRef, minimum: 1, maximum: Some(3) }.descriptor();
    assert_eq!(t.element, "anyfunc");
    assert_eq!(t.initial, 1);
    assert_eq!(t.maximum, Some(3));
    let m = MemoryType { minimum: 2, maximum: None }.descriptor();
    assert_eq!(m.initial, 2);
    assert_eq!(m.maximum, None);
    let g = GlobalType { content: ValueType::F64, mutable: true }.descriptor();
    assert_eq!(g.value, "f64");
    assert!(g.mutable);
}

#[test]
fn error_descriptions() {
    assert_eq!(Error::DuplicateImport.describe(), "duplicate import");
    assert_eq!(Error::HostError.describe(), "host error");
}
