//! Rendering the structured assembly records to line-oriented text: one
//! mnemonic instruction per line, label definitions as `label_<n>:` or
//! `func_<n>:`, comments naming source operators. The text a record
//! sequence renders to is pinned exactly by `render_insts`.

use vstd::prelude::*;
use vstd::string::StringExecFns;
use crate::ast::{CompileError, Module, Op};
use crate::compile::{module_err, module_insts};
use crate::inst::{Cond, IdxReg, Inst, Reg16, Reg8};
use crate::label::Label;

verus! {

pub open spec fn digit_char(d: nat) -> char {
    if d == 0 {
        '0'
    } else if d == 1 {
        '1'
    } else if d == 2 {
        '2'
    } else if d == 3 {
        '3'
    } else if d == 4 {
        '4'
    } else if d == 5 {
        '5'
    } else if d == 6 {
        '6'
    } else if d == 7 {
        '7'
    } else if d == 8 {
        '8'
    } else {
        '9'
    }
}

/// The decimal rendering of a number, most significant digit first.
pub open spec fn dec_chars(n: nat) -> Seq<char>
    decreases n,
{
    if n < 10 {
        seq![digit_char(n)]
    } else {
        dec_chars(n / 10).push(digit_char(n % 10))
    }
}

fn append_digit(out: &mut String, d: u64)
    requires
        d < 10,
    ensures
        final(out)@ == old(out)@ + seq![digit_char(d as nat)],
{
    if d == 0 {
        out.append("0");
        proof {
            reveal_strlit("0");
            assert(out@ =~= old(out)@ + seq![digit_char(d as nat)]);
        }
    } else if d == 1 {
        out.append("1");
        proof {
            reveal_strlit("1");
            assert(out@ =~= old(out)@ + seq![digit_char(d as nat)]);
        }
    } else if d == 2 {
        out.append("2");
        proof {
            reveal_strlit("2");
            assert(out@ =~= old(out)@ + seq![digit_char(d as nat)]);
        }
    } else if d == 3 {
        out.append("3");
        proof {
            reveal_strlit("3");
            assert(out@ =~= old(out)@ + seq![digit_char(d as nat)]);
        }
    } else if d == 4 {
        out.append("4");
        proof {
            reveal_strlit("4");
            assert(out@ =~= old(out)@ + seq![digit_char(d as nat)]);
        }
    } else if d == 5 {
        out.append("5");
        proof {
            reveal_strlit("5");
            assert(out@ =~= old(out)@ + seq![digit_char(d as nat)]);
        }
    } else if d == 6 {
        out.append("6");
        proof {
            reveal_strlit("6");
            assert(out@ =~= old(out)@ + seq![digit_char(d as nat)]);
        }
    } else if d == 7 {
        out.append("7");
        proof {
            reveal_strlit("7");
            assert(out@ =~= old(out)@ + seq![digit_char(d as nat)]);
        }
    } else if d == 8 {
        out.append("8");
        proof {
            reveal_strlit("8");
            assert(out@ =~= old(out)@ + seq![digit_char(d as nat)]);
        }
    } else {
        out.append("9");
        proof {
            reveal_strlit("9");
            assert(out@ =~= old(out)@ + seq![digit_char(d as nat)]);
        }
    }
}

fn append_dec(out: &mut String, n: u64)
    ensures
        final(out)@ == old(out)@ + dec_chars(n as nat),
    decreases n,
{
    if n < 10 {
        append_digit(out, n);
    } else {
        append_dec(out, n / 10);
        append_digit(out, n % 10);
        proof {
            assert(out@ =~= old(out)@ + dec_chars(n as nat));
        }
    }
}

pub open spec fn reg16_chars(r: Reg16) -> Seq<char> {
    match r {
        Reg16::BC => "BC"@,
        Reg16::DE => "DE"@,
        Reg16::HL => "HL"@,
        Reg16::IX => "IX"@,
        Reg16::IY => "IY"@,
        Reg16::SP => "SP"@,
    }
}

fn append_reg16(out: &mut String, r: Reg16)
    ensures
        final(out)@ == old(out)@ + reg16_chars(r),
{
    match r {
        Reg16::BC => out.append("BC"),
        Reg16::DE => out.append("DE"),
        Reg16::HL => out.append("HL"),
        Reg16::IX => out.append("IX"),
        Reg16::IY => out.append("IY"),
        Reg16::SP => out.append("SP"),
    }
}

pub open spec fn reg8_chars(r: Reg8) -> Seq<char> {
    match r {
        Reg8::A => "A"@,
        Reg8::B => "B"@,
        Reg8::C => "C"@,
        Reg8::D => "D"@,
        Reg8::E => "E"@,
        Reg8::H => "H"@,
        Reg8::L => "L"@,
    }
}

fn append_reg8(out: &mut String, r: Reg8)
    ensures
        final(out)@ == old(out)@ + reg8_chars(r),
{
    match r {
        Reg8::A => out.append("A"),
        Reg8::B => out.append("B"),
        Reg8::C => out.append("C"),
        Reg8::D => out.append("D"),
        Reg8::E => out.append("E"),
        Reg8::H => out.append("H"),
        Reg8::L => out.append("L"),
    }
}

pub open spec fn idx_chars(r: IdxReg) -> Seq<char> {
    match r {
        IdxReg::IX => "IX"@,
        IdxReg::IY => "IY"@,
    }
}

fn append_idx(out: &mut String, r: IdxReg)
    ensures
        final(out)@ == old(out)@ + idx_chars(r),
{
    match r {
        IdxReg::IX => out.append("IX"),
        IdxReg::IY => out.append("IY"),
    }
}

/// `(ii+d)`
pub open spec fn mem_chars(base: IdxReg, disp: u8) -> Seq<char> {
    "("@ + idx_chars(base) + "+"@ + dec_chars(disp as nat) + ")"@
}

fn append_mem(out: &mut String, base: IdxReg, disp: u8)
    ensures
        final(out)@ == old(out)@ + mem_chars(base, disp),
{
    out.append("(");
    append_idx(out, base);
    out.append("+");
    append_dec(out, disp as u64);
    out.append(")");
    proof {
        assert(out@ =~= old(out)@ + mem_chars(base, disp));
    }
}

/// `label_<n>`
pub open spec fn label_chars(l: Label) -> Seq<char> {
    "label_"@ + dec_chars(l.0 as nat)
}

fn append_label(out: &mut String, l: Label)
    ensures
        final(out)@ == old(out)@ + label_chars(l),
{
    out.append("label_");
    append_dec(out, l.0 as u64);
    proof {
        assert(out@ =~= old(out)@ + label_chars(l));
    }
}

/// `func_<n>`
pub open spec fn func_chars(f: usize) -> Seq<char> {
    "func_"@ + dec_chars(f as nat)
}

fn append_func(out: &mut String, f: usize)
    ensures
        final(out)@ == old(out)@ + func_chars(f),
{
    out.append("func_");
    append_dec(out, f as u64);
    proof {
        assert(out@ =~= old(out)@ + func_chars(f));
    }
}

/// The comment text naming one source operator.
pub open spec fn comment_chars(op: Op) -> Seq<char> {
    match op {
        Op::I32Const { .. } => "i32.const"@,
        Op::LocalGet { local_index } => "local.get "@ + dec_chars(local_index as nat),
        Op::LocalSet { local_index } => "local.set "@ + dec_chars(local_index as nat),
        Op::LocalTee { local_index } => "local.tee "@ + dec_chars(local_index as nat),
        Op::GlobalGet { global_index } => "global.get "@ + dec_chars(global_index as nat),
        Op::GlobalSet { global_index } => "global.set "@ + dec_chars(global_index as nat),
        Op::I32Store8 { .. } => "i32.store8"@,
        Op::I32Store { .. } => "i32.store"@,
        Op::I32Load { .. } => "i32.load"@,
        Op::I32Load8U { .. } => "i32.load8_u"@,
        Op::I32Eqz => "i32.eqz"@,
        Op::I32Add => "i32.add"@,
        Op::I32Sub => "i32.sub"@,
        Op::I32And => "i32.and"@,
        Op::I32GtU => "i32.gt_u"@,
        Op::I32GtS => "i32.gt_s"@,
        Op::I32LtU => "i32.lt_u"@,
        Op::I32GeU => "i32.ge_u"@,
        Op::I32Ne => "i32.ne"@,
        Op::Select => "select"@,
        Op::Block { .. } => "block"@,
        Op::Loop { .. } => "loop"@,
        Op::Br { .. } => "br"@,
        Op::BrIf { .. } => "br_if"@,
        Op::Call { .. } => "call"@,
        Op::Return => "return"@,
        Op::End => "end"@,
        Op::Unsupported => "unsupported"@,
    }
}

fn append_comment(out: &mut String, op: Op)
    ensures
        final(out)@ == old(out)@ + comment_chars(op),
{
    match op {
        Op::I32Const { .. } => out.append("i32.const"),
        Op::LocalGet { local_index } => {
            out.append("local.get ");
            append_dec(out, local_index as u64);
        },
        Op::LocalSet { local_index } => {
            out.append("local.set ");
            append_dec(out, local_index as u64);
        },
        Op::LocalTee { local_index } => {
            out.append("local.tee ");
            append_dec(out, local_index as u64);
        },
        Op::GlobalGet { global_index } => {
            out.append("global.get ");
            append_dec(out, global_index as u64);
        },
        Op::GlobalSet { global_index } => {
            out.append("global.set ");
            append_dec(out, global_index as u64);
        },
        Op::I32Store8 { .. } => out.append("i32.store8"),
        Op::I32Store { .. } => out.append("i32.store"),
        Op::I32Load { .. } => out.append("i32.load"),
        Op::I32Load8U { .. } => out.append("i32.load8_u"),
        Op::I32Eqz => out.append("i32.eqz"),
        Op::I32Add => out.append("i32.add"),
        Op::I32Sub => out.append("i32.sub"),
        Op::I32And => out.append("i32.and"),
        Op::I32GtU => out.append("i32.gt_u"),
        Op::I32GtS => out.append("i32.gt_s"),
        Op::I32LtU => out.append("i32.lt_u"),
        Op::I32GeU => out.append("i32.ge_u"),
        Op::I32Ne => out.append("i32.ne"),
        Op::Select => out.append("select"),
        Op::Block { .. } => out.append("block"),
        Op::Loop { .. } => out.append("loop"),
        Op::Br { .. } => out.append("br"),
        Op::BrIf { .. } => out.append("br_if"),
        Op::Call { .. } => out.append("call"),
        Op::Return => out.append("return"),
        Op::End => out.append("end"),
        Op::Unsupported => out.append("unsupported"),
    }
    proof {
        assert(out@ =~= old(out)@ + comment_chars(op));
    }
}

pub open spec fn cond_chars(c: Cond) -> Seq<char> {
    match c {
        Cond::Always => ""@,
        Cond::Z => "Z,"@,
        Cond::NZ => "NZ,"@,
        Cond::C => "C,"@,
    }
}

fn append_cond(out: &mut String, c: Cond)
    ensures
        final(out)@ == old(out)@ + cond_chars(c),
{
    match c {
        Cond::Always => out.append(""),
        Cond::Z => out.append("Z,"),
        Cond::NZ => out.append("NZ,"),
        Cond::C => out.append("C,"),
    }
}

/// The one line of text a record renders to, newline included.
pub open spec fn render_inst(i: Inst) -> Seq<char> {
    match i {
        Inst::Ld16Imm { dst, imm } => "  LD "@ + reg16_chars(dst) + ","@ + dec_chars(imm as nat)
            + "\n"@,
        Inst::Ld8Imm { dst, imm } => "  LD "@ + reg8_chars(dst) + ","@ + dec_chars(imm as nat)
            + "\n"@,
        Inst::Ld8 { dst, src } => "  LD "@ + reg8_chars(dst) + ","@ + reg8_chars(src) + "\n"@,
        Inst::Ld8FromMem { dst, base, disp } => "  LD "@ + reg8_chars(dst) + ","@ + mem_chars(
            base,
            disp,
        ) + "\n"@,
        Inst::Ld8ToMem { base, disp, src } => "  LD "@ + mem_chars(base, disp) + ","@ + reg8_chars(
            src,
        ) + "\n"@,
        Inst::Push { src } => "  PUSH "@ + reg16_chars(src) + "\n"@,
        Inst::Pop { dst } => "  POP "@ + reg16_chars(dst) + "\n"@,
        Inst::AddHl { src } => "  ADD HL,"@ + reg16_chars(src) + "\n"@,
        Inst::AdcHl { src } => "  ADC HL,"@ + reg16_chars(src) + "\n"@,
        Inst::SbcHl { src } => "  SBC HL,"@ + reg16_chars(src) + "\n"@,
        Inst::AddIdx { dst, src } => "  ADD "@ + idx_chars(dst) + ","@ + reg16_chars(src) + "\n"@,
        Inst::And { src } => "  AND "@ + reg8_chars(src) + "\n"@,
        Inst::Or { src } => "  OR "@ + reg8_chars(src) + "\n"@,
        Inst::XorImm { imm } => "  XOR "@ + dec_chars(imm as nat) + "\n"@,
        Inst::ExDeHl => "  EX DE,HL\n"@,
        Inst::Call { func } => "  CALL "@ + func_chars(func) + "\n"@,
        Inst::Ret => "  RET\n"@,
        Inst::Halt => "  HALT\n"@,
        Inst::Jump { cond, target } => "  JP "@ + cond_chars(cond) + label_chars(target) + "\n"@,
        Inst::LabelDef { label } => label_chars(label) + ":\n"@,
        Inst::FuncLabel { func } => func_chars(func) + ":\n"@,
        Inst::Comment { op } => "  ; "@ + comment_chars(op) + "\n"@,
    }
}

#[verifier::rlimit(80)]
fn append_inst(out: &mut String, i: &Inst)
    ensures
        final(out)@ == old(out)@ + render_inst(*i),
{
    match *i {
        Inst::Ld16Imm { dst, imm } => {
            out.append("  LD ");
            append_reg16(out, dst);
            out.append(",");
            append_dec(out, imm as u64);
            out.append("\n");
        },
        Inst::Ld8Imm { dst, imm } => {
            out.append("  LD ");
            append_reg8(out, dst);
            out.append(",");
            append_dec(out, imm as u64);
            out.append("\n");
        },
        Inst::Ld8 { dst, src } => {
            out.append("  LD ");
            append_reg8(out, dst);
            out.append(",");
            append_reg8(out, src);
            out.append("\n");
        },
        Inst::Ld8FromMem { dst, base, disp } => {
            out.append("  LD ");
            append_reg8(out, dst);
            out.append(",");
            append_mem(out, base, disp);
            out.append("\n");
        },
        Inst::Ld8ToMem { base, disp, src } => {
            out.append("  LD ");
            append_mem(out, base, disp);
            out.append(",");
            append_reg8(out, src);
            out.append("\n");
        },
        Inst::Push { src } => {
            out.append("  PUSH ");
            append_reg16(out, src);
            out.append("\n");
        },
        Inst::Pop { dst } => {
            out.append("  POP ");
            append_reg16(out, dst);
            out.append("\n");
        },
        Inst::AddHl { src } => {
            out.append("  ADD HL,");
            append_reg16(out, src);
            out.append("\n");
        },
        Inst::AdcHl { src } => {
            out.append("  ADC HL,");
            append_reg16(out, src);
            out.append("\n");
        },
        Inst::SbcHl { src } => {
            out.append("  SBC HL,");
            append_reg16(out, src);
            out.append("\n");
        },
        Inst::AddIdx { dst, src } => {
            out.append("  ADD ");
            append_idx(out, dst);
            out.append(",");
            append_reg16(out, src);
            out.append("\n");
        },
        Inst::And { src } => {
            out.append("  AND ");
            append_reg8(out, src);
            out.append("\n");
        },
        Inst::Or { src } => {
            out.append("  OR ");
            append_reg8(out, src);
            out.append("\n");
        },
        Inst::XorImm { imm } => {
            out.append("  XOR ");
            append_dec(out, imm as u64);
            out.append("\n");
        },
        Inst::ExDeHl => {
            out.append("  EX DE,HL\n");
        },
        Inst::Call { func } => {
            out.append("  CALL ");
            append_func(out, func);
            out.append("\n");
        },
        Inst::Ret => {
            out.append("  RET\n");
        },
        Inst::Halt => {
            out.append("  HALT\n");
        },
        Inst::Jump { cond, target } => {
            out.append("  JP ");
            append_cond(out, cond);
            append_label(out, target);
            out.append("\n");
        },
        Inst::LabelDef { label } => {
            append_label(out, label);
            out.append(":\n");
        },
        Inst::FuncLabel { func } => {
            append_func(out, func);
            out.append(":\n");
        },
        Inst::Comment { op } => {
            out.append("  ; ");
            append_comment(out, op);
            out.append("\n");
        },
    }
    proof {
        assert(out@ =~= old(out)@ + render_inst(*i));
    }
}

/// The text a whole record sequence renders to.
pub open spec fn render_insts(s: Seq<Inst>) -> Seq<char>
    decreases s.len(),
{
    if s.len() == 0 {
        Seq::<char>::empty()
    } else {
        render_insts(s.drop_last()) + render_inst(s.last())
    }
}

/// Render a record sequence to assembly text.
#[verifier::loop_isolation(false)]
pub fn render_program(insts: &Vec<Inst>) -> (r: String)
    ensures
        r@ == render_insts(insts@),
{
    let mut r = String::new();
    let mut i: usize = 0;
    while i < insts.len()
        invariant
            i <= insts@.len(),
            r@ == render_insts(insts@.subrange(0, i as int)),
        decreases insts@.len() - i,
    {
        append_inst(&mut r, &insts[i]);
        i = i + 1;
        proof {
            assert(insts@.subrange(0, i as int).drop_last() =~= insts@.subrange(0, i - 1));
            assert(r@ =~= render_insts(insts@.subrange(0, i as int)));
        }
    }
    proof {
        assert(insts@.subrange(0, insts@.len() as int) =~= insts@);
    }
    r
}

impl Module {
    /// Compile the module and render the result: on success exactly the
    /// text of `module_insts`, on failure exactly `module_err` with no
    /// output produced.
    pub fn compile_to_asm(&self) -> (res: Result<String, CompileError>)
        ensures
            res is Ok <==> module_err(*self) is None,
            res matches Err(e) ==> module_err(*self) == Some(e),
            res matches Ok(s) ==> s@ == render_insts(module_insts(*self)),
    {
        match self.compile() {
            Ok(insts) => Ok(render_program(&insts)),
            Err(e) => Err(e),
        }
    }
}

} // verus!
