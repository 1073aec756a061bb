//! The textual form of the output: labels, mnemonics and comments.

use wasm80::{Body, FuncSig, FunctionDef, Module, Op, ValKind};

fn entry_module(ops: Vec<Op>) -> Module {
    Module {
        entry: 0,
        functions: vec![FunctionDef {
            func_type: FuncSig { params: vec![], results: vec![ValKind::I32] },
            body: Body { locals: 0, ops },
        }],
    }
}

#[test]
fn const_42_renders_exactly() {
    let m = entry_module(vec![Op::I32Const { value: 42 }, Op::Return]);
    let text = m.compile_to_asm().unwrap();
    let expected_lines = [
        "  LD SP,65512",
        "  ; call",
        "  LD BC,0",
        "  PUSH IY",
        "  CALL func_0",
        "  POP DE",
        "  POP BC",
        "  POP IY",
        "  PUSH BC",
        "  PUSH DE",
        "  HALT",
        "func_0:",
        "  LD IY,0",
        "  ADD IY,SP",
        "  ; i32.const",
        "  LD DE,42",
        "  PUSH DE",
        "  LD DE,0",
        "  PUSH DE",
        // `return`: relocate the result below the return address
        "  POP DE",
        "  POP BC",
        "  POP HL",
        "  PUSH BC",
        "  PUSH DE",
        "  PUSH HL",
        "  RET",
        // the function epilogue emits the same sequence once more
        "  POP DE",
        "  POP BC",
        "  POP HL",
        "  PUSH BC",
        "  PUSH DE",
        "  PUSH HL",
        "  RET",
    ];
    let expected = expected_lines.join("\n") + "\n";
    assert_eq!(text, expected);
}

#[test]
fn function_labels_appear_in_index_order() {
    let m = Module {
        entry: 0,
        functions: vec![
            FunctionDef {
                func_type: FuncSig { params: vec![], results: vec![] },
                body: Body { locals: 0, ops: vec![] },
            },
            FunctionDef {
                func_type: FuncSig { params: vec![], results: vec![] },
                body: Body { locals: 0, ops: vec![] },
            },
        ],
    };
    let text = m.compile_to_asm().unwrap();
    let f0 = text.find("func_0:\n").expect("func_0 label");
    let f1 = text.find("func_1:\n").expect("func_1 label");
    assert!(f0 < f1);
}

#[test]
fn control_flow_labels_are_numbered() {
    let m = entry_module(vec![
        Op::Block { empty_type: true },
        Op::Loop { empty_type: true },
        Op::Br { relative_depth: 1 },
        Op::End,
        Op::End,
        Op::I32Const { value: 0 },
        Op::Return,
    ]);
    let text = m.compile_to_asm().unwrap();
    // the block's exit label is allocated first, the loop's second
    assert!(text.contains("  ; loop\nlabel_1:\n"));
    assert!(text.contains("  JP label_0\n"));
    // the block label is emitted at the matching end
    assert!(text.contains("label_0:\n"));
}

#[test]
fn loop_label_precedes_backward_jump() {
    let m = entry_module(vec![
        Op::Loop { empty_type: true },
        Op::End,
        Op::I32Const { value: 0 },
        Op::Return,
    ]);
    let text = m.compile_to_asm().unwrap();
    assert!(text.contains("  ; loop\nlabel_0:\n"));
}

#[test]
fn comments_name_source_operators() {
    let m = entry_module(vec![
        Op::I32Const { value: 1 },
        Op::I32Const { value: 2 },
        Op::I32Add,
        Op::Return,
    ]);
    let text = m.compile_to_asm().unwrap();
    assert!(text.contains("  ; i32.add\n"));
    assert!(text.contains("  ; call\n"));
}

#[test]
fn local_comments_carry_the_index() {
    let m = Module {
        entry: 0,
        functions: vec![FunctionDef {
            func_type: FuncSig { params: vec![], results: vec![] },
            body: Body {
                locals: 13,
                ops: vec![Op::I32Const { value: 5 }, Op::LocalSet { local_index: 12 }],
            },
        }],
    };
    let text = m.compile_to_asm().unwrap();
    assert!(text.contains("  ; local.set 12\n"));
}

#[test]
fn failed_compilation_yields_no_text() {
    let m = entry_module(vec![Op::Unsupported]);
    assert!(m.compile_to_asm().is_err());
}
