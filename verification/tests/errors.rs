//! Every error variant, each from an input that provokes exactly it,
//! and the fail-fast behaviour: an erroneous module yields no output.

use wasm80::{Body, CompileError, Export, FuncSig, FunctionDef, Module, ModuleBuilder, Op, ValKind};

fn sig(params: usize, results: usize) -> FuncSig {
    FuncSig { params: vec![ValKind::I32; params], results: vec![ValKind::I32; results] }
}

fn func(params: usize, results: usize, locals: usize, ops: Vec<Op>) -> FunctionDef {
    FunctionDef { func_type: sig(params, results), body: Body { locals, ops } }
}

fn entry_with(ops: Vec<Op>) -> Module {
    Module { entry: 0, functions: vec![func(0, 0, 1, ops)] }
}

#[test]
fn missing_entry_export_fails_before_any_output() {
    let mut b = ModuleBuilder::new();
    b.add_types(vec![sig(0, 1)]);
    b.add_funcs(&vec![0]).unwrap();
    b.add_code(Body { locals: 0, ops: vec![Op::I32Const { value: 42 }, Op::Return] }).unwrap();
    b.add_exports(&vec![Export { name: String::from("main"), is_func: true, index: 0 }]);
    match b.build() {
        Err(e) => assert_eq!(e, CompileError::MissingEntry),
        Ok(_) => panic!("a module without an `entry` export must not build"),
    }
}

#[test]
fn non_function_entry_export_does_not_count() {
    let mut b = ModuleBuilder::new();
    b.add_exports(&vec![Export { name: String::from("entry"), is_func: false, index: 0 }]);
    assert!(matches!(b.build(), Err(CompileError::MissingEntry)));
}

#[test]
fn entry_out_of_range() {
    let m = Module { entry: 3, functions: vec![func(0, 0, 0, vec![])] };
    assert_eq!(m.compile().unwrap_err(), CompileError::EntryOutOfRange);
}

#[test]
fn entry_with_parameters_is_rejected() {
    let m = Module { entry: 0, functions: vec![func(2, 0, 0, vec![])] };
    assert_eq!(m.compile().unwrap_err(), CompileError::EntryTakesParams);
}

#[test]
fn multiple_results_are_rejected() {
    let m = Module { entry: 0, functions: vec![func(0, 2, 0, vec![])] };
    assert_eq!(m.compile().unwrap_err(), CompileError::MultipleResults { function: 0 });
}

#[test]
fn non_i32_value_kind_is_rejected() {
    let m = Module {
        entry: 1,
        functions: vec![
            FunctionDef {
                func_type: FuncSig { params: vec![ValKind::Other], results: vec![] },
                body: Body { locals: 0, ops: vec![] },
            },
            func(0, 0, 0, vec![]),
        ],
    };
    assert_eq!(m.compile().unwrap_err(), CompileError::UnsupportedValueKind { function: 0 });
}

#[test]
fn frame_beyond_displacement_window_is_rejected() {
    // 32 slots * 4 bytes overflows the 8-bit signed displacement window
    let m = Module { entry: 0, functions: vec![func(0, 0, 32, vec![])] };
    assert_eq!(m.compile().unwrap_err(), CompileError::FrameTooLarge { function: 0 });
    // 31 slots still fit
    let ok = Module { entry: 0, functions: vec![func(0, 0, 31, vec![])] };
    assert!(ok.compile().is_ok());
}

#[test]
fn unsupported_operator_is_named_by_position() {
    let m = entry_with(vec![Op::I32Const { value: 1 }, Op::Unsupported]);
    assert_eq!(
        m.compile().unwrap_err(),
        CompileError::UnsupportedOperator { function: 0, index: 1 }
    );
}

#[test]
fn non_empty_block_type_is_rejected() {
    let m = entry_with(vec![Op::Block { empty_type: false }]);
    assert_eq!(
        m.compile().unwrap_err(),
        CompileError::NonEmptyBlockType { function: 0, index: 0 }
    );
    let m2 = entry_with(vec![Op::Loop { empty_type: false }]);
    assert_eq!(
        m2.compile().unwrap_err(),
        CompileError::NonEmptyBlockType { function: 0, index: 0 }
    );
}

#[test]
fn local_index_out_of_range() {
    // one local, no parameters: index 1 does not exist
    let m = entry_with(vec![Op::LocalGet { local_index: 1 }]);
    assert_eq!(m.compile().unwrap_err(), CompileError::LocalOutOfRange { function: 0, index: 0 });
}

#[test]
fn global_index_beyond_table_is_rejected() {
    let m = entry_with(vec![Op::GlobalGet { global_index: 3 }]);
    assert_eq!(m.compile().unwrap_err(), CompileError::GlobalOutOfRange { function: 0, index: 0 });
}

#[test]
fn branch_depth_with_no_open_construct_is_rejected() {
    let m = entry_with(vec![Op::Br { relative_depth: 0 }]);
    assert_eq!(
        m.compile().unwrap_err(),
        CompileError::BranchDepthOutOfRange { function: 0, index: 0 }
    );
}

#[test]
fn branch_depth_past_open_constructs_is_rejected() {
    let m = entry_with(vec![
        Op::Block { empty_type: true },
        Op::BrIf { relative_depth: 1 },
        Op::End,
    ]);
    assert_eq!(
        m.compile().unwrap_err(),
        CompileError::BranchDepthOutOfRange { function: 0, index: 1 }
    );
}

#[test]
fn branch_to_closed_construct_is_rejected() {
    // after `end`, the block is no longer an open construct
    let m = entry_with(vec![
        Op::Block { empty_type: true },
        Op::End,
        Op::Br { relative_depth: 0 },
    ]);
    assert_eq!(
        m.compile().unwrap_err(),
        CompileError::BranchDepthOutOfRange { function: 0, index: 2 }
    );
}

#[test]
fn call_target_out_of_range() {
    let m = entry_with(vec![Op::Call { function_index: 7 }]);
    assert_eq!(
        m.compile().unwrap_err(),
        CompileError::CallTargetOutOfRange { function: 0, index: 0 }
    );
}

#[test]
fn first_erroneous_function_wins() {
    let m = Module {
        entry: 0,
        functions: vec![
            func(0, 0, 0, vec![]),
            func(0, 0, 0, vec![Op::Unsupported]),
            func(0, 0, 0, vec![Op::GlobalGet { global_index: 9 }]),
        ],
    };
    assert_eq!(
        m.compile().unwrap_err(),
        CompileError::UnsupportedOperator { function: 1, index: 0 }
    );
}

#[test]
fn type_index_out_of_range_in_builder() {
    let mut b = ModuleBuilder::new();
    b.add_types(vec![sig(0, 0)]);
    let r = b.add_funcs(&vec![0, 5]);
    assert_eq!(r.unwrap_err(), CompileError::TypeIndexOutOfRange { index: 1 });
}

#[test]
fn code_without_declaration_in_builder() {
    let mut b = ModuleBuilder::new();
    let r = b.add_code(Body { locals: 0, ops: vec![] });
    assert_eq!(r.unwrap_err(), CompileError::CodeWithoutDeclaration);
}
