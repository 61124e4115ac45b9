use sgxwasm::{
    boundary_value_to_runtime_value, result_covert, BoundaryValue, InterpreterError,
    NativeValue, SpecDriver,
};
use wasmi::{ImportsBuilder, ModuleInstance, ModuleRef, NopExternals, RuntimeValue};

/// A module that exports `f(a, b)`, computed by the given i32 opcode.
fn binary_module(opcode: u8) -> ModuleRef {
    let bytes: Vec<u8> = vec![
        0x00, 0x61, 0x73, 0x6d, 0x01, 0x00, 0x00, 0x00, // header
        0x01, 0x07, 0x01, 0x60, 0x02, 0x7f, 0x7f, 0x01, 0x7f, // (i32, i32) -> i32
        0x03, 0x02, 0x01, 0x00, // one function
        0x07, 0x05, 0x01, 0x01, 0x66, 0x00, 0x00, // export "f"
        0x0a, 0x09, 0x01, 0x07, 0x00, 0x20, 0x00, 0x20, 0x01, opcode, 0x0b,
    ];
    let module = wasmi::Module::from_buffer(&bytes).unwrap();
    ModuleInstance::new(&module, &ImportsBuilder::default()).unwrap().assert_no_start()
}

fn to_native(v: RuntimeValue) -> NativeValue {
    match v {
        RuntimeValue::I32(x) => NativeValue::I32(x),
        RuntimeValue::I64(x) => NativeValue::I64(x),
        RuntimeValue::F32(x) => NativeValue::F32(x.to_bits()),
        RuntimeValue::F64(x) => NativeValue::F64(x.to_bits()),
    }
}

fn call_f(m: &ModuleRef, a: i32, b: i32) -> i32 {
    match m.invoke_export("f", &[RuntimeValue::I32(a), RuntimeValue::I32(b)], &mut NopExternals) {
        Ok(Some(RuntimeValue::I32(x))) => x,
        _ => panic!("f must return an i32"),
    }
}

fn message(e: InterpreterError) -> String {
    match e {
        InterpreterError::Instantiation(m) => m,
        InterpreterError::Wasmi(e) => panic!("unexpected interpreter error {:?}", e),
    }
}

#[test]
fn empty_registry_has_no_last_module() {
    let driver = SpecDriver::new();
    let err = driver.module_or_last(None).unwrap_err();
    assert_eq!(message(err), "No modules registered");
}

#[test]
fn unknown_name_is_not_registered() {
    let driver = SpecDriver::new();
    assert_eq!(message(driver.module("missing").unwrap_err()), "Module not registered missing");
    assert_eq!(
        message(driver.module_or_last(Some("missing")).unwrap_err()),
        "Module not registered missing"
    );
}

#[test]
fn last_loaded_module_is_the_default() {
    let mut driver = SpecDriver::new();
    driver.add_module(None, binary_module(0x6a));
    driver.add_module(None, binary_module(0x6b));
    let last = driver.module_or_last(None).unwrap();
    assert_eq!(call_f(&last, 2, 3), -1);
    assert!(driver.module("f").is_err());
}

#[test]
fn alias_finds_the_same_module() {
    let mut driver = SpecDriver::new();
    driver.add_module(Some("m".to_string()), binary_module(0x6a));
    driver.add_module(None, binary_module(0x6b));
    driver.register(&Some("m".to_string()), "alias".to_string()).unwrap();
    assert_eq!(call_f(&driver.module("alias").unwrap(), 2, 3), 5);
    assert_eq!(call_f(&driver.module("m").unwrap(), 2, 3), 5);
    // a registered module also becomes the last one
    assert_eq!(call_f(&driver.module_or_last(None).unwrap(), 2, 3), 5);
}

#[test]
fn register_without_source_uses_last_module() {
    let mut driver = SpecDriver::new();
    driver.add_module(None, binary_module(0x6c));
    driver.register(&None, "product".to_string()).unwrap();
    assert_eq!(call_f(&driver.module("product").unwrap(), 4, 5), 20);
}

#[test]
fn register_of_unknown_module_fails() {
    let mut driver = SpecDriver::new();
    let err = driver.register(&Some("nowhere".to_string()), "x".to_string()).unwrap_err();
    assert_eq!(message(err), "No such modules registered");
    assert_eq!(message(driver.register(&None, "x".to_string()).unwrap_err()), "No such modules registered");
    assert!(driver.module("x").is_err());
}

#[test]
fn later_load_overwrites_a_name() {
    let mut driver = SpecDriver::new();
    driver.add_module(Some("m".to_string()), binary_module(0x6a));
    driver.add_module(Some("m".to_string()), binary_module(0x6c));
    assert_eq!(call_f(&driver.module("m").unwrap(), 4, 5), 20);
}

#[test]
fn anonymous_load_then_invoke() {
    let mut driver = SpecDriver::new();
    driver.add_module(None, binary_module(0x6a));
    let module = driver.module_or_last(None).unwrap();
    let args: Vec<RuntimeValue> = [BoundaryValue::I32(2), BoundaryValue::I32(3)]
        .iter()
        .map(|b| match boundary_value_to_runtime_value(*b).unwrap() {
            NativeValue::I32(x) => RuntimeValue::I32(x),
            _ => panic!("only i32 arguments here"),
        })
        .collect();
    let res = module
        .invoke_export("f", &args, &mut NopExternals)
        .map(|v| v.map(to_native))
        .map_err(InterpreterError::Wasmi);
    assert!(matches!(result_covert(res), Ok(Some(BoundaryValue::I32(5)))));
}
