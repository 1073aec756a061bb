//! End-to-end semantics tests: compile small modules and execute the
//! emitted records on a reference interpreter of the target CPU.

use wasm80::{Body, Cond, FuncSig, FunctionDef, IdxReg, Inst, Module, Op, Reg16, Reg8, ValKind};

struct Machine {
    a: u8,
    b: u8,
    c: u8,
    d: u8,
    e: u8,
    h: u8,
    l: u8,
    ix: u16,
    iy: u16,
    sp: u16,
    zf: bool,
    cf: bool,
    mem: Vec<u8>,
}

impl Machine {
    fn new() -> Machine {
        Machine {
            a: 0,
            b: 0,
            c: 0,
            d: 0,
            e: 0,
            h: 0,
            l: 0,
            ix: 0,
            iy: 0,
            sp: 0,
            zf: false,
            cf: false,
            mem: vec![0u8; 65536],
        }
    }

    fn get8(&self, r: Reg8) -> u8 {
        match r {
            Reg8::A => self.a,
            Reg8::B => self.b,
            Reg8::C => self.c,
            Reg8::D => self.d,
            Reg8::E => self.e,
            Reg8::H => self.h,
            Reg8::L => self.l,
        }
    }

    fn set8(&mut self, r: Reg8, v: u8) {
        match r {
            Reg8::A => self.a = v,
            Reg8::B => self.b = v,
            Reg8::C => self.c = v,
            Reg8::D => self.d = v,
            Reg8::E => self.e = v,
            Reg8::H => self.h = v,
            Reg8::L => self.l = v,
        }
    }

    fn get16(&self, r: Reg16) -> u16 {
        match r {
            Reg16::BC => ((self.b as u16) << 8) | self.c as u16,
            Reg16::DE => ((self.d as u16) << 8) | self.e as u16,
            Reg16::HL => ((self.h as u16) << 8) | self.l as u16,
            Reg16::IX => self.ix,
            Reg16::IY => self.iy,
            Reg16::SP => self.sp,
        }
    }

    fn set16(&mut self, r: Reg16, v: u16) {
        match r {
            Reg16::BC => {
                self.b = (v >> 8) as u8;
                self.c = v as u8;
            }
            Reg16::DE => {
                self.d = (v >> 8) as u8;
                self.e = v as u8;
            }
            Reg16::HL => {
                self.h = (v >> 8) as u8;
                self.l = v as u8;
            }
            Reg16::IX => self.ix = v,
            Reg16::IY => self.iy = v,
            Reg16::SP => self.sp = v,
        }
    }

    fn get_idx(&self, r: IdxReg) -> u16 {
        match r {
            IdxReg::IX => self.ix,
            IdxReg::IY => self.iy,
        }
    }

    fn set_idx(&mut self, r: IdxReg, v: u16) {
        match r {
            IdxReg::IX => self.ix = v,
            IdxReg::IY => self.iy = v,
        }
    }

    fn push16(&mut self, v: u16) {
        self.sp = self.sp.wrapping_sub(2);
        self.mem[self.sp as usize] = v as u8;
        self.mem[self.sp.wrapping_add(1) as usize] = (v >> 8) as u8;
    }

    fn pop16(&mut self) -> u16 {
        let lo = self.mem[self.sp as usize] as u16;
        let hi = self.mem[self.sp.wrapping_add(1) as usize] as u16;
        self.sp = self.sp.wrapping_add(2);
        (hi << 8) | lo
    }

    fn cond_holds(&self, c: Cond) -> bool {
        match c {
            Cond::Always => true,
            Cond::Z => self.zf,
            Cond::NZ => !self.zf,
            Cond::C => self.cf,
        }
    }
}

fn find_label(prog: &[Inst], target: wasm80::Label) -> usize {
    for (i, inst) in prog.iter().enumerate() {
        if let Inst::LabelDef { label } = inst {
            if *label == target {
                return i;
            }
        }
    }
    panic!("undefined label");
}

fn find_func(prog: &[Inst], target: usize) -> usize {
    for (i, inst) in prog.iter().enumerate() {
        if let Inst::FuncLabel { func } = inst {
            if *func == target {
                return i;
            }
        }
    }
    panic!("undefined function label");
}

fn run(prog: &[Inst]) -> Machine {
    let mut m = Machine::new();
    let mut pc: usize = 0;
    let mut fuel: u64 = 10_000_000;
    loop {
        assert!(fuel > 0, "interpreter fuel exhausted");
        fuel -= 1;
        assert!(pc < prog.len(), "fell off the end of the program");
        let inst = prog[pc];
        pc += 1;
        match inst {
            Inst::Ld16Imm { dst, imm } => m.set16(dst, imm),
            Inst::Ld8Imm { dst, imm } => m.set8(dst, imm),
            Inst::Ld8 { dst, src } => {
                let v = m.get8(src);
                m.set8(dst, v);
            }
            Inst::Ld8FromMem { dst, base, disp } => {
                let addr = m.get_idx(base).wrapping_add(disp as u16);
                let v = m.mem[addr as usize];
                m.set8(dst, v);
            }
            Inst::Ld8ToMem { base, disp, src } => {
                let addr = m.get_idx(base).wrapping_add(disp as u16);
                m.mem[addr as usize] = m.get8(src);
            }
            Inst::Push { src } => {
                let v = m.get16(src);
                m.push16(v);
            }
            Inst::Pop { dst } => {
                let v = m.pop16();
                m.set16(dst, v);
            }
            Inst::AddHl { src } => {
                let r = m.get16(Reg16::HL) as u32 + m.get16(src) as u32;
                m.cf = r > 0xFFFF;
                m.set16(Reg16::HL, r as u16);
            }
            Inst::AdcHl { src } => {
                let r = m.get16(Reg16::HL) as u32 + m.get16(src) as u32 + m.cf as u32;
                m.cf = r > 0xFFFF;
                m.set16(Reg16::HL, r as u16);
                m.zf = (r as u16) == 0;
            }
            Inst::SbcHl { src } => {
                let r = m.get16(Reg16::HL) as i32 - m.get16(src) as i32 - m.cf as i32;
                m.cf = r < 0;
                m.set16(Reg16::HL, r as u16);
                m.zf = (r as u16) == 0;
            }
            Inst::AddIdx { dst, src } => {
                let r = m.get_idx(dst) as u32 + m.get16(src) as u32;
                m.cf = r > 0xFFFF;
                m.set_idx(dst, r as u16);
            }
            Inst::And { src } => {
                m.a &= m.get8(src);
                m.zf = m.a == 0;
                m.cf = false;
            }
            Inst::Or { src } => {
                m.a |= m.get8(src);
                m.zf = m.a == 0;
                m.cf = false;
            }
            Inst::XorImm { imm } => {
                m.a ^= imm;
                m.zf = m.a == 0;
                m.cf = false;
            }
            Inst::ExDeHl => {
                std::mem::swap(&mut m.d, &mut m.h);
                std::mem::swap(&mut m.e, &mut m.l);
            }
            Inst::Call { func } => {
                m.push16(pc as u16);
                pc = find_func(prog, func);
            }
            Inst::Ret => {
                pc = m.pop16() as usize;
            }
            Inst::Halt => return m,
            Inst::Jump { cond, target } => {
                if m.cond_holds(cond) {
                    pc = find_label(prog, target);
                }
            }
            Inst::LabelDef { .. } => {}
            Inst::FuncLabel { .. } => {}
            Inst::Comment { .. } => {}
        }
    }
}

fn sig(params: usize, has_result: bool) -> FuncSig {
    FuncSig {
        params: vec![ValKind::I32; params],
        results: if has_result { vec![ValKind::I32] } else { vec![] },
    }
}

fn func(params: usize, has_result: bool, locals: usize, ops: Vec<Op>) -> FunctionDef {
    FunctionDef { func_type: sig(params, has_result), body: Body { locals, ops } }
}

/// Reads the 32-bit value left on top of the operand stack after HALT:
/// high limb nearest the top, low limb beneath it.
fn result32(m: &Machine) -> u32 {
    let hi = m.mem[m.sp as usize] as u32 | ((m.mem[m.sp as usize + 1] as u32) << 8);
    let lo = m.mem[m.sp as usize + 2] as u32 | ((m.mem[m.sp as usize + 3] as u32) << 8);
    (hi << 16) | lo
}

fn run_entry(ops: Vec<Op>, locals: usize) -> u32 {
    let m = Module { entry: 0, functions: vec![func(0, true, locals, ops)] };
    let insts = m.compile().expect("module should compile");
    result32(&run(&insts))
}

fn run_module(m: &Module) -> u32 {
    let insts = m.compile().expect("module should compile");
    result32(&run(&insts))
}

#[test]
fn const_roundtrip_through_local() {
    for v in [0u32, 1, 42, 0x7FFF, 0x8000, 0x12345678, 0x80000000, 0xFFFFFFFF] {
        let got = run_entry(
            vec![
                Op::I32Const { value: v },
                Op::LocalSet { local_index: 0 },
                Op::LocalGet { local_index: 0 },
                Op::Return,
            ],
            1,
        );
        assert_eq!(got, v);
    }
}

#[test]
fn local_tee_keeps_value_on_stack() {
    let got = run_entry(
        vec![
            Op::I32Const { value: 5 },
            Op::LocalTee { local_index: 0 },
            Op::LocalGet { local_index: 0 },
            Op::I32Add,
            Op::Return,
        ],
        1,
    );
    assert_eq!(got, 10);
}

#[test]
fn store_load_roundtrip() {
    for v in [0u32, 1, 0xDEADBEEF, 0xFFFFFFFF, 0x00010000] {
        let got = run_entry(
            vec![
                Op::I32Const { value: 4096 },
                Op::I32Const { value: v },
                Op::I32Store { offset: 0 },
                Op::I32Const { value: 4096 },
                Op::I32Load { offset: 0 },
                Op::Return,
            ],
            0,
        );
        assert_eq!(got, v);
    }
}

#[test]
fn store_load_roundtrip_with_offset() {
    let got = run_entry(
        vec![
            Op::I32Const { value: 5000 },
            Op::I32Const { value: 0xCAFEBABE },
            Op::I32Store { offset: 24 },
            Op::I32Const { value: 5000 },
            Op::I32Load { offset: 24 },
            Op::Return,
        ],
        0,
    );
    assert_eq!(got, 0xCAFEBABE);
}

#[test]
fn store8_load8_zero_extends() {
    for v in [0u32, 0xAB, 0x1FF, 0xFFFFFF80] {
        let got = run_entry(
            vec![
                Op::I32Const { value: 8192 },
                Op::I32Const { value: v },
                Op::I32Store8 { offset: 0 },
                Op::I32Const { value: 8192 },
                Op::I32Load8U { offset: 0 },
                Op::Return,
            ],
            0,
        );
        assert_eq!(got, v & 0xFF);
    }
}

fn binop(a: u32, op: Op, b: u32) -> u32 {
    run_entry(
        vec![Op::I32Const { value: a }, Op::I32Const { value: b }, op, Op::Return],
        0,
    )
}

#[test]
fn add_wraps_modulo_2_pow_32() {
    assert_eq!(binop(0xFFFFFFFF, Op::I32Add, 1), 0);
    assert_eq!(binop(2, Op::I32Add, 3), 5);
    assert_eq!(binop(0x8000FFFF, Op::I32Add, 0x00010001), 0x80020000);
    assert_eq!(binop(0xFFFFFFFF, Op::I32Add, 0xFFFFFFFF), 0xFFFFFFFE);
}

#[test]
fn sub_wraps_modulo_2_pow_32() {
    assert_eq!(binop(0, Op::I32Sub, 1), 0xFFFFFFFF);
    assert_eq!(binop(7, Op::I32Sub, 3), 4);
    assert_eq!(binop(0x80000000, Op::I32Sub, 1), 0x7FFFFFFF);
    assert_eq!(binop(0x10000, Op::I32Sub, 1), 0xFFFF);
}

#[test]
fn and_is_bitwise_per_limb() {
    assert_eq!(binop(0xF0F0FFFF, Op::I32And, 0x0FF0F00F), 0x00F0F00F);
    assert_eq!(binop(0xFFFFFFFF, Op::I32And, 0x12345678), 0x12345678);
    assert_eq!(binop(0, Op::I32And, 0xFFFFFFFF), 0);
}

#[test]
fn eqz_returns_exactly_zero_or_one() {
    let eqz = |v: u32| {
        run_entry(vec![Op::I32Const { value: v }, Op::I32Eqz, Op::Return], 0)
    };
    assert_eq!(eqz(0), 1);
    assert_eq!(eqz(1), 0);
    assert_eq!(eqz(0x10000), 0);
    assert_eq!(eqz(0xFFFFFFFF), 0);
}

#[test]
fn unsigned_comparisons_at_boundaries() {
    let pairs = [
        (0u32, 0xFFFFFFFFu32),
        (0xFFFFFFFF, 0),
        (5, 5),
        (0, 0),
        (7, 8),
        (8, 7),
        (0xFFFFFFFE, 0xFFFFFFFF),
        (0x10000, 0xFFFF),
    ];
    for (a, b) in pairs {
        assert_eq!(binop(a, Op::I32GtU, b), (a > b) as u32, "gt_u {a} {b}");
        assert_eq!(binop(a, Op::I32LtU, b), (a < b) as u32, "lt_u {a} {b}");
        assert_eq!(binop(a, Op::I32GeU, b), (a >= b) as u32, "ge_u {a} {b}");
        assert_eq!(binop(a, Op::I32Ne, b), (a != b) as u32, "ne {a} {b}");
    }
}

#[test]
fn signed_greater_than_is_sign_aware() {
    let pairs = [
        (0xFFFFFFFFu32, 0u32), // -1 > 0 is false
        (0, 0xFFFFFFFF),       // 0 > -1 is true
        (5, 3),
        (3, 5),
        (5, 5),
        (0x80000000, 0x7FFFFFFF), // INT_MIN > INT_MAX is false
        (0x7FFFFFFF, 0x80000000),
        (0xFFFFFFFE, 0xFFFFFFFF), // -2 > -1 is false
    ];
    for (a, b) in pairs {
        let expect = ((a as i32) > (b as i32)) as u32;
        assert_eq!(binop(a, Op::I32GtS, b), expect, "gt_s {a} {b}");
    }
}

#[test]
fn select_picks_by_condition() {
    let sel = |cond: u32| {
        run_entry(
            vec![
                Op::I32Const { value: 111 },
                Op::I32Const { value: 222 },
                Op::I32Const { value: cond },
                Op::Select,
                Op::Return,
            ],
            0,
        )
    };
    assert_eq!(sel(1), 111);
    assert_eq!(sel(0xFFFFFFFF), 111);
    assert_eq!(sel(0x10000), 111);
    assert_eq!(sel(0), 222);
}

#[test]
fn globals_roundtrip() {
    for g in 0..3usize {
        let got = run_entry(
            vec![
                Op::I32Const { value: 0xABCD1234 },
                Op::GlobalSet { global_index: g },
                Op::GlobalGet { global_index: g },
                Op::Return,
            ],
            0,
        );
        assert_eq!(got, 0xABCD1234);
    }
}

fn countdown_ops(n: u32) -> Vec<Op> {
    vec![
        Op::I32Const { value: n },
        Op::LocalSet { local_index: 0 },
        Op::I32Const { value: 0 },
        Op::LocalSet { local_index: 1 },
        Op::Block { empty_type: true },
        Op::Loop { empty_type: true },
        Op::LocalGet { local_index: 0 },
        Op::I32Eqz,
        Op::BrIf { relative_depth: 1 },
        Op::LocalGet { local_index: 1 },
        Op::I32Const { value: 1 },
        Op::I32Add,
        Op::LocalSet { local_index: 1 },
        Op::LocalGet { local_index: 0 },
        Op::I32Const { value: 1 },
        Op::I32Sub,
        Op::LocalSet { local_index: 0 },
        Op::Br { relative_depth: 0 },
        Op::End,
        Op::End,
        Op::LocalGet { local_index: 1 },
        Op::Return,
    ]
}

#[test]
fn countdown_loop_runs_exactly_n_iterations() {
    for n in [0u32, 1, 2, 7, 31] {
        assert_eq!(run_entry(countdown_ops(n), 2), n, "n = {n}");
    }
}

#[test]
fn callee_sees_arguments_at_param_indices() {
    for (idx, expect) in [(0usize, 7u32), (1, 9)] {
        let m = Module {
            entry: 0,
            functions: vec![
                func(
                    0,
                    true,
                    0,
                    vec![
                        Op::I32Const { value: 7 },
                        Op::I32Const { value: 9 },
                        Op::Call { function_index: 1 },
                        Op::Return,
                    ],
                ),
                func(2, true, 1, vec![Op::LocalGet { local_index: idx }, Op::Return]),
            ],
        };
        assert_eq!(run_module(&m), expect);
    }
}

#[test]
fn callee_locals_start_zeroed() {
    let m = Module {
        entry: 0,
        functions: vec![
            func(
                0,
                true,
                0,
                vec![
                    Op::I32Const { value: 7 },
                    Op::I32Const { value: 9 },
                    Op::Call { function_index: 1 },
                    Op::Return,
                ],
            ),
            // local index 2 is the declared local, past the two parameters
            func(2, true, 1, vec![Op::LocalGet { local_index: 2 }, Op::Return]),
        ],
    };
    assert_eq!(run_module(&m), 0);
}

#[test]
fn call_result_becomes_operand() {
    let m = Module {
        entry: 0,
        functions: vec![
            func(
                0,
                true,
                0,
                vec![
                    Op::I32Const { value: 30 },
                    Op::I32Const { value: 12 },
                    Op::Call { function_index: 1 },
                    Op::I32Const { value: 100 },
                    Op::I32Add,
                    Op::Return,
                ],
            ),
            func(2, true, 0, vec![
                Op::LocalGet { local_index: 0 },
                Op::LocalGet { local_index: 1 },
                Op::I32Sub,
                Op::Return,
            ]),
        ],
    };
    // (30 - 12) + 100
    assert_eq!(run_module(&m), 118);
}

#[test]
fn entry_const_42_returns_42() {
    assert_eq!(run_entry(vec![Op::I32Const { value: 42 }, Op::Return], 0), 42);
}

#[test]
fn entry_result_via_implicit_end() {
    // no explicit `return`: the epilogue relocates the result
    assert_eq!(run_entry(vec![Op::I32Const { value: 42 }, Op::End], 0), 42);
}

#[test]
fn nested_loops_accumulate() {
    // two nested countdown loops: 3 outer iterations of 2 inner each
    let ops = vec![
        Op::I32Const { value: 3 },
        Op::LocalSet { local_index: 0 },
        Op::I32Const { value: 0 },
        Op::LocalSet { local_index: 2 },
        Op::Block { empty_type: true },
        Op::Loop { empty_type: true },
        Op::LocalGet { local_index: 0 },
        Op::I32Eqz,
        Op::BrIf { relative_depth: 1 },
        Op::I32Const { value: 2 },
        Op::LocalSet { local_index: 1 },
        Op::Block { empty_type: true },
        Op::Loop { empty_type: true },
        Op::LocalGet { local_index: 1 },
        Op::I32Eqz,
        Op::BrIf { relative_depth: 1 },
        Op::LocalGet { local_index: 2 },
        Op::I32Const { value: 1 },
        Op::I32Add,
        Op::LocalSet { local_index: 2 },
        Op::LocalGet { local_index: 1 },
        Op::I32Const { value: 1 },
        Op::I32Sub,
        Op::LocalSet { local_index: 1 },
        Op::Br { relative_depth: 0 },
        Op::End,
        Op::End,
        Op::LocalGet { local_index: 0 },
        Op::I32Const { value: 1 },
        Op::I32Sub,
        Op::LocalSet { local_index: 0 },
        Op::Br { relative_depth: 0 },
        Op::End,
        Op::End,
        Op::LocalGet { local_index: 2 },
        Op::Return,
    ];
    assert_eq!(run_entry(ops, 3), 6);
}

#[test]
fn two_level_call_chain() {
    let m = Module {
        entry: 0,
        functions: vec![
            func(0, true, 0, vec![
                Op::I32Const { value: 5 },
                Op::Call { function_index: 1 },
                Op::Return,
            ]),
            func(1, true, 0, vec![
                Op::LocalGet { local_index: 0 },
                Op::I32Const { value: 1 },
                Op::Call { function_index: 2 },
                Op::I32Const { value: 10 },
                Op::I32Add,
                Op::Return,
            ]),
            func(2, true, 0, vec![
                Op::LocalGet { local_index: 0 },
                Op::LocalGet { local_index: 1 },
                Op::I32Sub,
                Op::Return,
            ]),
        ],
    };
    // (5 - 1) + 10
    assert_eq!(run_module(&m), 14);
}
