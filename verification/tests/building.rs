//! The builder pipeline: sections in, module out, compiled to text.

use wasm80::{Body, Export, FuncSig, Module, ModuleBuilder, Op, ValKind};

fn export(name: &str, is_func: bool, index: usize) -> Export {
    Export { name: String::from(name), is_func, index }
}

#[test]
fn builder_pipeline_produces_compilable_module() {
    let mut b = ModuleBuilder::new();
    b.add_types(vec![FuncSig { params: vec![], results: vec![ValKind::I32] }]);
    b.add_funcs(&vec![0]).unwrap();
    b.add_code(Body { locals: 0, ops: vec![Op::I32Const { value: 42 }, Op::Return] }).unwrap();
    b.add_exports(&vec![export("entry", true, 0)]);
    let m = b.build().unwrap();
    assert_eq!(m.entry, 0);
    assert_eq!(m.functions.len(), 1);
    assert!(m.compile().is_ok());
}

#[test]
fn first_entry_export_wins() {
    let mut b = ModuleBuilder::new();
    b.add_types(vec![
        FuncSig { params: vec![], results: vec![] },
        FuncSig { params: vec![], results: vec![] },
        FuncSig { params: vec![], results: vec![] },
    ]);
    b.add_funcs(&vec![0, 1, 2]).unwrap();
    for _ in 0..3 {
        b.add_code(Body { locals: 0, ops: vec![] }).unwrap();
    }
    b.add_exports(&vec![
        export("other", true, 0),
        export("entry", false, 1),
        export("entry", true, 2),
        export("entry", true, 0),
    ]);
    let m = b.build().unwrap();
    assert_eq!(m.entry, 2);
}

#[test]
fn shared_type_serves_several_functions() {
    let mut b = ModuleBuilder::new();
    b.add_types(vec![FuncSig { params: vec![ValKind::I32], results: vec![ValKind::I32] }]);
    b.add_funcs(&vec![0, 0]).unwrap();
    b.add_code(Body { locals: 0, ops: vec![Op::LocalGet { local_index: 0 }, Op::Return] })
        .unwrap();
    b.add_code(Body { locals: 1, ops: vec![Op::LocalGet { local_index: 1 }, Op::Return] })
        .unwrap();
    b.add_exports(&vec![export("entry", true, 0)]);
    let m = b.build().unwrap();
    assert_eq!(m.functions.len(), 2);
    assert_eq!(m.functions[0].func_type.params.len(), 1);
    assert_eq!(m.functions[1].func_type.params.len(), 1);
    assert_eq!(m.functions[1].body.locals, 1);
}

#[test]
fn build_consumes_recorded_bodies_in_order() {
    let mut b = ModuleBuilder::new();
    b.add_types(vec![
        FuncSig { params: vec![], results: vec![] },
        FuncSig { params: vec![], results: vec![] },
    ]);
    b.add_funcs(&vec![0, 1]).unwrap();
    b.add_code(Body { locals: 3, ops: vec![] }).unwrap();
    b.add_code(Body { locals: 5, ops: vec![] }).unwrap();
    b.add_exports(&vec![export("entry", true, 1)]);
    let m = b.build().unwrap();
    assert_eq!(m.entry, 1);
    assert_eq!(m.functions[0].body.locals, 3);
    assert_eq!(m.functions[1].body.locals, 5);
}

#[test]
fn module_type_is_plainly_constructible() {
    // the compiler's input can also be written down directly
    let m = Module { entry: 0, functions: vec![] };
    assert!(m.compile().is_err());
}
