//! The per-operator emission tables: for each source operator, the exact
//! assembly record sequence that implements it, as a specification, and
//! an executable emitter proved to append exactly that sequence.
//!
//! Operand representation: every logical 32-bit value occupies two
//! consecutive 16-bit words on the hardware stack, the high limb pushed
//! last (nearer the top). Every sequence below preserves that invariant.

use vstd::prelude::*;
use crate::ast::Op;
use crate::frame::{frame_fits, global_addr, slot_disp, MAX_GLOBALS};
use crate::frame::{global_base, slot_base};
use crate::inst::{def_count, lemma_def_count_add, Cond, IdxReg, Inst, Reg16, Reg8};
use crate::label::Label;

verus! {

/// `const v`: push low(v) then high(v).
pub open spec fn const_insts(value: u32) -> Seq<Inst> {
    seq![
        Inst::Comment { op: Op::I32Const { value } },
        Inst::Ld16Imm { dst: Reg16::DE, imm: (value % 0x10000) as u16 },
        Inst::Push { src: Reg16::DE },
        Inst::Ld16Imm { dst: Reg16::DE, imm: (value / 0x10000) as u16 },
        Inst::Push { src: Reg16::DE },
    ]
}

pub fn emit_const(out: &mut Vec<Inst>, value: u32)
    ensures
        final(out)@ == old(out)@ + const_insts(value),
{
    out.push(Inst::Comment { op: Op::I32Const { value } });
    out.push(Inst::Ld16Imm { dst: Reg16::DE, imm: (value % 0x10000) as u16 });
    out.push(Inst::Push { src: Reg16::DE });
    out.push(Inst::Ld16Imm { dst: Reg16::DE, imm: (value / 0x10000) as u16 });
    out.push(Inst::Push { src: Reg16::DE });
    proof {
        assert(out@ =~= old(out)@ + const_insts(value));
    }
}

/// `local.get i`: copy the frame slot at its computed displacement onto
/// the operand stack, low limb pushed first.
pub open spec fn local_get_insts(total: usize, idx: usize) -> Seq<Inst> {
    let d = slot_disp(total as nat, idx as nat);
    seq![
        Inst::Comment { op: Op::LocalGet { local_index: idx } },
        Inst::Ld8FromMem { dst: Reg8::E, base: IdxReg::IY, disp: (d + 2) as u8 },
        Inst::Ld8FromMem { dst: Reg8::D, base: IdxReg::IY, disp: (d + 3) as u8 },
        Inst::Push { src: Reg16::DE },
        Inst::Ld8FromMem { dst: Reg8::E, base: IdxReg::IY, disp: d as u8 },
        Inst::Ld8FromMem { dst: Reg8::D, base: IdxReg::IY, disp: (d + 1) as u8 },
        Inst::Push { src: Reg16::DE },
    ]
}

pub fn emit_local_get(out: &mut Vec<Inst>, total: usize, idx: usize)
    requires
        idx < total,
        frame_fits(total as nat),
    ensures
        final(out)@ == old(out)@ + local_get_insts(total, idx),
{
    let d = slot_base(total, idx);
    out.push(Inst::Comment { op: Op::LocalGet { local_index: idx } });
    out.push(Inst::Ld8FromMem { dst: Reg8::E, base: IdxReg::IY, disp: d + 2 });
    out.push(Inst::Ld8FromMem { dst: Reg8::D, base: IdxReg::IY, disp: d + 3 });
    out.push(Inst::Push { src: Reg16::DE });
    out.push(Inst::Ld8FromMem { dst: Reg8::E, base: IdxReg::IY, disp: d });
    out.push(Inst::Ld8FromMem { dst: Reg8::D, base: IdxReg::IY, disp: d + 1 });
    out.push(Inst::Push { src: Reg16::DE });
    proof {
        assert(out@ =~= old(out)@ + local_get_insts(total, idx));
    }
}

/// `local.set i`: pop a value (high limb first) into the frame slot.
pub open spec fn local_set_insts(total: usize, idx: usize) -> Seq<Inst> {
    let d = slot_disp(total as nat, idx as nat);
    seq![
        Inst::Comment { op: Op::LocalSet { local_index: idx } },
        Inst::Pop { dst: Reg16::DE },
        Inst::Ld8ToMem { base: IdxReg::IY, disp: d as u8, src: Reg8::E },
        Inst::Ld8ToMem { base: IdxReg::IY, disp: (d + 1) as u8, src: Reg8::D },
        Inst::Pop { dst: Reg16::DE },
        Inst::Ld8ToMem { base: IdxReg::IY, disp: (d + 2) as u8, src: Reg8::E },
        Inst::Ld8ToMem { base: IdxReg::IY, disp: (d + 3) as u8, src: Reg8::D },
    ]
}

pub fn emit_local_set(out: &mut Vec<Inst>, total: usize, idx: usize)
    requires
        idx < total,
        frame_fits(total as nat),
    ensures
        final(out)@ == old(out)@ + local_set_insts(total, idx),
{
    let d = slot_base(total, idx);
    out.push(Inst::Comment { op: Op::LocalSet { local_index: idx } });
    out.push(Inst::Pop { dst: Reg16::DE });
    out.push(Inst::Ld8ToMem { base: IdxReg::IY, disp: d, src: Reg8::E });
    out.push(Inst::Ld8ToMem { base: IdxReg::IY, disp: d + 1, src: Reg8::D });
    out.push(Inst::Pop { dst: Reg16::DE });
    out.push(Inst::Ld8ToMem { base: IdxReg::IY, disp: d + 2, src: Reg8::E });
    out.push(Inst::Ld8ToMem { base: IdxReg::IY, disp: d + 3, src: Reg8::D });
    proof {
        assert(out@ =~= old(out)@ + local_set_insts(total, idx));
    }
}

/// `local.tee i`: copy the value at the stack top into the frame slot
/// without popping it.
pub open spec fn local_tee_insts(total: usize, idx: usize) -> Seq<Inst> {
    let d = slot_disp(total as nat, idx as nat);
    seq![
        Inst::Comment { op: Op::LocalTee { local_index: idx } },
        Inst::Ld16Imm { dst: Reg16::IX, imm: 0 },
        Inst::AddIdx { dst: IdxReg::IX, src: Reg16::SP },
        Inst::Ld8FromMem { dst: Reg8::A, base: IdxReg::IX, disp: 0 },
        Inst::Ld8ToMem { base: IdxReg::IY, disp: d as u8, src: Reg8::A },
        Inst::Ld8FromMem { dst: Reg8::A, base: IdxReg::IX, disp: 1 },
        Inst::Ld8ToMem { base: IdxReg::IY, disp: (d + 1) as u8, src: Reg8::A },
        Inst::Ld8FromMem { dst: Reg8::A, base: IdxReg::IX, disp: 2 },
        Inst::Ld8ToMem { base: IdxReg::IY, disp: (d + 2) as u8, src: Reg8::A },
        Inst::Ld8FromMem { dst: Reg8::A, base: IdxReg::IX, disp: 3 },
        Inst::Ld8ToMem { base: IdxReg::IY, disp: (d + 3) as u8, src: Reg8::A },
    ]
}

pub fn emit_local_tee(out: &mut Vec<Inst>, total: usize, idx: usize)
    requires
        idx < total,
        frame_fits(total as nat),
    ensures
        final(out)@ == old(out)@ + local_tee_insts(total, idx),
{
    let d = slot_base(total, idx);
    out.push(Inst::Comment { op: Op::LocalTee { local_index: idx } });
    out.push(Inst::Ld16Imm { dst: Reg16::IX, imm: 0 });
    out.push(Inst::AddIdx { dst: IdxReg::IX, src: Reg16::SP });
    out.push(Inst::Ld8FromMem { dst: Reg8::A, base: IdxReg::IX, disp: 0 });
    out.push(Inst::Ld8ToMem { base: IdxReg::IY, disp: d, src: Reg8::A });
    out.push(Inst::Ld8FromMem { dst: Reg8::A, base: IdxReg::IX, disp: 1 });
    out.push(Inst::Ld8ToMem { base: IdxReg::IY, disp: d + 1, src: Reg8::A });
    out.push(Inst::Ld8FromMem { dst: Reg8::A, base: IdxReg::IX, disp: 2 });
    out.push(Inst::Ld8ToMem { base: IdxReg::IY, disp: d + 2, src: Reg8::A });
    out.push(Inst::Ld8FromMem { dst: Reg8::A, base: IdxReg::IX, disp: 3 });
    out.push(Inst::Ld8ToMem { base: IdxReg::IY, disp: d + 3, src: Reg8::A });
    proof {
        assert(out@ =~= old(out)@ + local_tee_insts(total, idx));
    }
}

/// `global.get g`: read the 4 bytes at the global's fixed address.
pub open spec fn global_get_insts(idx: usize) -> Seq<Inst> {
    let a = global_addr(idx as nat);
    seq![
        Inst::Comment { op: Op::GlobalGet { global_index: idx } },
        Inst::Ld16Imm { dst: Reg16::IX, imm: a as u16 },
        Inst::Ld8FromMem { dst: Reg8::E, base: IdxReg::IX, disp: 2 },
        Inst::Ld8FromMem { dst: Reg8::D, base: IdxReg::IX, disp: 3 },
        Inst::Push { src: Reg16::DE },
        Inst::Ld8FromMem { dst: Reg8::E, base: IdxReg::IX, disp: 0 },
        Inst::Ld8FromMem { dst: Reg8::D, base: IdxReg::IX, disp: 1 },
        Inst::Push { src: Reg16::DE },
    ]
}

pub fn emit_global_get(out: &mut Vec<Inst>, idx: usize)
    requires
        idx < MAX_GLOBALS,
    ensures
        final(out)@ == old(out)@ + global_get_insts(idx),
{
    let a = global_base(idx);
    out.push(Inst::Comment { op: Op::GlobalGet { global_index: idx } });
    out.push(Inst::Ld16Imm { dst: Reg16::IX, imm: a });
    out.push(Inst::Ld8FromMem { dst: Reg8::E, base: IdxReg::IX, disp: 2 });
    out.push(Inst::Ld8FromMem { dst: Reg8::D, base: IdxReg::IX, disp: 3 });
    out.push(Inst::Push { src: Reg16::DE });
    out.push(Inst::Ld8FromMem { dst: Reg8::E, base: IdxReg::IX, disp: 0 });
    out.push(Inst::Ld8FromMem { dst: Reg8::D, base: IdxReg::IX, disp: 1 });
    out.push(Inst::Push { src: Reg16::DE });
    proof {
        assert(out@ =~= old(out)@ + global_get_insts(idx));
    }
}

/// `global.set g`: write the 4 bytes at the global's fixed address.
pub open spec fn global_set_insts(idx: usize) -> Seq<Inst> {
    let a = global_addr(idx as nat);
    seq![
        Inst::Comment { op: Op::GlobalSet { global_index: idx } },
        Inst::Ld16Imm { dst: Reg16::IX, imm: a as u16 },
        Inst::Pop { dst: Reg16::DE },
        Inst::Ld8ToMem { base: IdxReg::IX, disp: 0, src: Reg8::E },
        Inst::Ld8ToMem { base: IdxReg::IX, disp: 1, src: Reg8::D },
        Inst::Pop { dst: Reg16::DE },
        Inst::Ld8ToMem { base: IdxReg::IX, disp: 2, src: Reg8::E },
        Inst::Ld8ToMem { base: IdxReg::IX, disp: 3, src: Reg8::D },
    ]
}

pub fn emit_global_set(out: &mut Vec<Inst>, idx: usize)
    requires
        idx < MAX_GLOBALS,
    ensures
        final(out)@ == old(out)@ + global_set_insts(idx),
{
    let a = global_base(idx);
    out.push(Inst::Comment { op: Op::GlobalSet { global_index: idx } });
    out.push(Inst::Ld16Imm { dst: Reg16::IX, imm: a });
    out.push(Inst::Pop { dst: Reg16::DE });
    out.push(Inst::Ld8ToMem { base: IdxReg::IX, disp: 0, src: Reg8::E });
    out.push(Inst::Ld8ToMem { base: IdxReg::IX, disp: 1, src: Reg8::D });
    out.push(Inst::Pop { dst: Reg16::DE });
    out.push(Inst::Ld8ToMem { base: IdxReg::IX, disp: 2, src: Reg8::E });
    out.push(Inst::Ld8ToMem { base: IdxReg::IX, disp: 3, src: Reg8::D });
    proof {
        assert(out@ =~= old(out)@ + global_set_insts(idx));
    }
}

/// `store8`: pop a value and an address, truncate the address to 16
/// bits, add the constant offset, store the value's low byte.
pub open spec fn store8_insts(offset: u16) -> Seq<Inst> {
    seq![
        Inst::Comment { op: Op::I32Store8 { offset } },
        Inst::Pop { dst: Reg16::DE },
        Inst::Pop { dst: Reg16::DE },
        Inst::Pop { dst: Reg16::IX },
        Inst::Pop { dst: Reg16::IX },
        Inst::Ld16Imm { dst: Reg16::BC, imm: offset },
        Inst::AddIdx { dst: IdxReg::IX, src: Reg16::BC },
        Inst::Ld8ToMem { base: IdxReg::IX, disp: 0, src: Reg8::E },
    ]
}

pub fn emit_store8(out: &mut Vec<Inst>, offset: u16)
    ensures
        final(out)@ == old(out)@ + store8_insts(offset),
{
    out.push(Inst::Comment { op: Op::I32Store8 { offset } });
    out.push(Inst::Pop { dst: Reg16::DE });
    out.push(Inst::Pop { dst: Reg16::DE });
    out.push(Inst::Pop { dst: Reg16::IX });
    out.push(Inst::Pop { dst: Reg16::IX });
    out.push(Inst::Ld16Imm { dst: Reg16::BC, imm: offset });
    out.push(Inst::AddIdx { dst: IdxReg::IX, src: Reg16::BC });
    out.push(Inst::Ld8ToMem { base: IdxReg::IX, disp: 0, src: Reg8::E });
    proof {
        assert(out@ =~= old(out)@ + store8_insts(offset));
    }
}

/// `store`: pop a value and an address, store 4 bytes at address + offset.
pub open spec fn store_insts(offset: u16) -> Seq<Inst> {
    seq![
        Inst::Comment { op: Op::I32Store { offset } },
        Inst::Pop { dst: Reg16::DE },
        Inst::Pop { dst: Reg16::HL },
        Inst::Pop { dst: Reg16::IX },
        Inst::Pop { dst: Reg16::IX },
        Inst::Ld16Imm { dst: Reg16::BC, imm: offset },
        Inst::AddIdx { dst: IdxReg::IX, src: Reg16::BC },
        Inst::Ld8ToMem { base: IdxReg::IX, disp: 0, src: Reg8::L },
        Inst::Ld8ToMem { base: IdxReg::IX, disp: 1, src: Reg8::H },
        Inst::Ld8ToMem { base: IdxReg::IX, disp: 2, src: Reg8::E },
        Inst::Ld8ToMem { base: IdxReg::IX, disp: 3, src: Reg8::D },
    ]
}

pub fn emit_store(out: &mut Vec<Inst>, offset: u16)
    ensures
        final(out)@ == old(out)@ + store_insts(offset),
{
    out.push(Inst::Comment { op: Op::I32Store { offset } });
    out.push(Inst::Pop { dst: Reg16::DE });
    out.push(Inst::Pop { dst: Reg16::HL });
    out.push(Inst::Pop { dst: Reg16::IX });
    out.push(Inst::Pop { dst: Reg16::IX });
    out.push(Inst::Ld16Imm { dst: Reg16::BC, imm: offset });
    out.push(Inst::AddIdx { dst: IdxReg::IX, src: Reg16::BC });
    out.push(Inst::Ld8ToMem { base: IdxReg::IX, disp: 0, src: Reg8::L });
    out.push(Inst::Ld8ToMem { base: IdxReg::IX, disp: 1, src: Reg8::H });
    out.push(Inst::Ld8ToMem { base: IdxReg::IX, disp: 2, src: Reg8::E });
    out.push(Inst::Ld8ToMem { base: IdxReg::IX, disp: 3, src: Reg8::D });
    proof {
        assert(out@ =~= old(out)@ + store_insts(offset));
    }
}

/// `load`: pop an address, read 4 bytes at address + offset, push them.
pub open spec fn load_insts(offset: u16) -> Seq<Inst> {
    seq![
        Inst::Comment { op: Op::I32Load { offset } },
        Inst::Pop { dst: Reg16::IX },
        Inst::Pop { dst: Reg16::IX },
        Inst::Ld16Imm { dst: Reg16::BC, imm: offset },
        Inst::AddIdx { dst: IdxReg::IX, src: Reg16::BC },
        Inst::Ld8FromMem { dst: Reg8::C, base: IdxReg::IX, disp: 0 },
        Inst::Ld8FromMem { dst: Reg8::B, base: IdxReg::IX, disp: 1 },
        Inst::Push { src: Reg16::BC },
        Inst::Ld8FromMem { dst: Reg8::C, base: IdxReg::IX, disp: 2 },
        Inst::Ld8FromMem { dst: Reg8::B, base: IdxReg::IX, disp: 3 },
        Inst::Push { src: Reg16::BC },
    ]
}

pub fn emit_load(out: &mut Vec<Inst>, offset: u16)
    ensures
        final(out)@ == old(out)@ + load_insts(offset),
{
    out.push(Inst::Comment { op: Op::I32Load { offset } });
    out.push(Inst::Pop { dst: Reg16::IX });
    out.push(Inst::Pop { dst: Reg16::IX });
    out.push(Inst::Ld16Imm { dst: Reg16::BC, imm: offset });
    out.push(Inst::AddIdx { dst: IdxReg::IX, src: Reg16::BC });
    out.push(Inst::Ld8FromMem { dst: Reg8::C, base: IdxReg::IX, disp: 0 });
    out.push(Inst::Ld8FromMem { dst: Reg8::B, base: IdxReg::IX, disp: 1 });
    out.push(Inst::Push { src: Reg16::BC });
    out.push(Inst::Ld8FromMem { dst: Reg8::C, base: IdxReg::IX, disp: 2 });
    out.push(Inst::Ld8FromMem { dst: Reg8::B, base: IdxReg::IX, disp: 3 });
    out.push(Inst::Push { src: Reg16::BC });
    proof {
        assert(out@ =~= old(out)@ + load_insts(offset));
    }
}

/// `load8_u`: pop an address, read 1 byte, push it zero-extended to 32
/// bits (high limb 0, top 8 bits of the low limb 0).
pub open spec fn load8u_insts(offset: u16) -> Seq<Inst> {
    seq![
        Inst::Comment { op: Op::I32Load8U { offset } },
        Inst::Pop { dst: Reg16::IX },
        Inst::Pop { dst: Reg16::IX },
        Inst::Ld16Imm { dst: Reg16::BC, imm: offset },
        Inst::AddIdx { dst: IdxReg::IX, src: Reg16::BC },
        Inst::Ld8FromMem { dst: Reg8::E, base: IdxReg::IX, disp: 0 },
        Inst::Ld8Imm { dst: Reg8::D, imm: 0 },
        Inst::Push { src: Reg16::DE },
        Inst::Ld8Imm { dst: Reg8::E, imm: 0 },
        Inst::Push { src: Reg16::DE },
    ]
}

pub fn emit_load8u(out: &mut Vec<Inst>, offset: u16)
    ensures
        final(out)@ == old(out)@ + load8u_insts(offset),
{
    out.push(Inst::Comment { op: Op::I32Load8U { offset } });
    out.push(Inst::Pop { dst: Reg16::IX });
    out.push(Inst::Pop { dst: Reg16::IX });
    out.push(Inst::Ld16Imm { dst: Reg16::BC, imm: offset });
    out.push(Inst::AddIdx { dst: IdxReg::IX, src: Reg16::BC });
    out.push(Inst::Ld8FromMem { dst: Reg8::E, base: IdxReg::IX, disp: 0 });
    out.push(Inst::Ld8Imm { dst: Reg8::D, imm: 0 });
    out.push(Inst::Push { src: Reg16::DE });
    out.push(Inst::Ld8Imm { dst: Reg8::E, imm: 0 });
    out.push(Inst::Push { src: Reg16::DE });
    proof {
        assert(out@ =~= old(out)@ + load8u_insts(offset));
    }
}

/// `add`: multi-limb addition; low limbs with `ADD`, high limbs with
/// `ADC` so the carry propagates; wraps modulo 2^32.
pub open spec fn add_insts() -> Seq<Inst> {
    seq![
        Inst::Comment { op: Op::I32Add },
        Inst::Pop { dst: Reg16::DE },
        Inst::Pop { dst: Reg16::BC },
        Inst::Pop { dst: Reg16::IX },
        Inst::Pop { dst: Reg16::HL },
        Inst::And { src: Reg8::A },
        Inst::AddHl { src: Reg16::BC },
        Inst::Push { src: Reg16::HL },
        Inst::ExDeHl,
        Inst::Push { src: Reg16::IX },
        Inst::Pop { dst: Reg16::DE },
        Inst::AdcHl { src: Reg16::DE },
        Inst::Push { src: Reg16::HL },
    ]
}

pub fn emit_add(out: &mut Vec<Inst>)
    ensures
        final(out)@ == old(out)@ + add_insts(),
{
    out.push(Inst::Comment { op: Op::I32Add });
    out.push(Inst::Pop { dst: Reg16::DE });
    out.push(Inst::Pop { dst: Reg16::BC });
    out.push(Inst::Pop { dst: Reg16::IX });
    out.push(Inst::Pop { dst: Reg16::HL });
    out.push(Inst::And { src: Reg8::A });
    out.push(Inst::AddHl { src: Reg16::BC });
    out.push(Inst::Push { src: Reg16::HL });
    out.push(Inst::ExDeHl);
    out.push(Inst::Push { src: Reg16::IX });
    out.push(Inst::Pop { dst: Reg16::DE });
    out.push(Inst::AdcHl { src: Reg16::DE });
    out.push(Inst::Push { src: Reg16::HL });
    proof {
        assert(out@ =~= old(out)@ + add_insts());
    }
}

/// `sub`: multi-limb subtraction of the top value from the one beneath
/// it; low limbs first, the borrow carried into the high limbs; wraps
/// modulo 2^32.
pub open spec fn sub_insts() -> Seq<Inst> {
    seq![
        Inst::Comment { op: Op::I32Sub },
        Inst::Pop { dst: Reg16::DE },
        Inst::Pop { dst: Reg16::BC },
        Inst::Pop { dst: Reg16::IX },
        Inst::Pop { dst: Reg16::HL },
        Inst::And { src: Reg8::A },
        Inst::SbcHl { src: Reg16::BC },
        Inst::Push { src: Reg16::HL },
        Inst::Push { src: Reg16::IX },
        Inst::Pop { dst: Reg16::HL },
        Inst::SbcHl { src: Reg16::DE },
        Inst::Push { src: Reg16::HL },
    ]
}

pub fn emit_sub(out: &mut Vec<Inst>)
    ensures
        final(out)@ == old(out)@ + sub_insts(),
{
    out.push(Inst::Comment { op: Op::I32Sub });
    out.push(Inst::Pop { dst: Reg16::DE });
    out.push(Inst::Pop { dst: Reg16::BC });
    out.push(Inst::Pop { dst: Reg16::IX });
    out.push(Inst::Pop { dst: Reg16::HL });
    out.push(Inst::And { src: Reg8::A });
    out.push(Inst::SbcHl { src: Reg16::BC });
    out.push(Inst::Push { src: Reg16::HL });
    out.push(Inst::Push { src: Reg16::IX });
    out.push(Inst::Pop { dst: Reg16::HL });
    out.push(Inst::SbcHl { src: Reg16::DE });
    out.push(Inst::Push { src: Reg16::HL });
    proof {
        assert(out@ =~= old(out)@ + sub_insts());
    }
}

/// `and`: bitwise AND, each limb independently.
pub open spec fn and_insts() -> Seq<Inst> {
    seq![
        Inst::Comment { op: Op::I32And },
        Inst::Pop { dst: Reg16::DE },
        Inst::Pop { dst: Reg16::BC },
        Inst::Pop { dst: Reg16::IX },
        Inst::Pop { dst: Reg16::HL },
        Inst::Ld8 { dst: Reg8::A, src: Reg8::L },
        Inst::And { src: Reg8::C },
        Inst::Ld8 { dst: Reg8::L, src: Reg8::A },
        Inst::Ld8 { dst: Reg8::A, src: Reg8::H },
        Inst::And { src: Reg8::B },
        Inst::Ld8 { dst: Reg8::H, src: Reg8::A },
        Inst::Push { src: Reg16::HL },
        Inst::Push { src: Reg16::IX },
        Inst::Pop { dst: Reg16::HL },
        Inst::Ld8 { dst: Reg8::A, src: Reg8::L },
        Inst::And { src: Reg8::E },
        Inst::Ld8 { dst: Reg8::L, src: Reg8::A },
        Inst::Ld8 { dst: Reg8::A, src: Reg8::H },
        Inst::And { src: Reg8::D },
        Inst::Ld8 { dst: Reg8::H, src: Reg8::A },
        Inst::Push { src: Reg16::HL },
    ]
}

pub fn emit_and(out: &mut Vec<Inst>)
    ensures
        final(out)@ == old(out)@ + and_insts(),
{
    out.push(Inst::Comment { op: Op::I32And });
    out.push(Inst::Pop { dst: Reg16::DE });
    out.push(Inst::Pop { dst: Reg16::BC });
    out.push(Inst::Pop { dst: Reg16::IX });
    out.push(Inst::Pop { dst: Reg16::HL });
    out.push(Inst::Ld8 { dst: Reg8::A, src: Reg8::L });
    out.push(Inst::And { src: Reg8::C });
    out.push(Inst::Ld8 { dst: Reg8::L, src: Reg8::A });
    out.push(Inst::Ld8 { dst: Reg8::A, src: Reg8::H });
    out.push(Inst::And { src: Reg8::B });
    out.push(Inst::Ld8 { dst: Reg8::H, src: Reg8::A });
    out.push(Inst::Push { src: Reg16::HL });
    out.push(Inst::Push { src: Reg16::IX });
    out.push(Inst::Pop { dst: Reg16::HL });
    out.push(Inst::Ld8 { dst: Reg8::A, src: Reg8::L });
    out.push(Inst::And { src: Reg8::E });
    out.push(Inst::Ld8 { dst: Reg8::L, src: Reg8::A });
    out.push(Inst::Ld8 { dst: Reg8::A, src: Reg8::H });
    out.push(Inst::And { src: Reg8::D });
    out.push(Inst::Ld8 { dst: Reg8::H, src: Reg8::A });
    out.push(Inst::Push { src: Reg16::HL });
    proof {
        assert(out@ =~= old(out)@ + and_insts());
    }
}

/// The shared tail of a flag test: jump on `cond` to push `on_jump`,
/// else push `on_fall`, then push a zero high limb; the result is a full
/// 4-byte value that is exactly 0 or 1.
pub open spec fn flag_result_insts(cond: Cond, on_jump: u16, on_fall: u16, l1: Label, l2: Label) -> Seq<
    Inst,
> {
    seq![
        Inst::Jump { cond, target: l1 },
        Inst::Ld16Imm { dst: Reg16::HL, imm: on_fall },
        Inst::Push { src: Reg16::HL },
        Inst::Jump { cond: Cond::Always, target: l2 },
        Inst::LabelDef { label: l1 },
        Inst::Ld16Imm { dst: Reg16::HL, imm: on_jump },
        Inst::Push { src: Reg16::HL },
        Inst::LabelDef { label: l2 },
        Inst::Ld16Imm { dst: Reg16::HL, imm: 0 },
        Inst::Push { src: Reg16::HL },
    ]
}

pub fn emit_flag_result(out: &mut Vec<Inst>, cond: Cond, on_jump: u16, on_fall: u16, l1: Label, l2: Label)
    ensures
        final(out)@ == old(out)@ + flag_result_insts(cond, on_jump, on_fall, l1, l2),
{
    out.push(Inst::Jump { cond, target: l1 });
    out.push(Inst::Ld16Imm { dst: Reg16::HL, imm: on_fall });
    out.push(Inst::Push { src: Reg16::HL });
    out.push(Inst::Jump { cond: Cond::Always, target: l2 });
    out.push(Inst::LabelDef { label: l1 });
    out.push(Inst::Ld16Imm { dst: Reg16::HL, imm: on_jump });
    out.push(Inst::Push { src: Reg16::HL });
    out.push(Inst::LabelDef { label: l2 });
    out.push(Inst::Ld16Imm { dst: Reg16::HL, imm: 0 });
    out.push(Inst::Push { src: Reg16::HL });
    proof {
        assert(out@ =~= old(out)@ + flag_result_insts(cond, on_jump, on_fall, l1, l2));
    }
}

/// `eqz`: OR the four bytes of the value together and test for zero.
pub open spec fn eqz_insts(l1: Label, l2: Label) -> Seq<Inst> {
    seq![
        Inst::Comment { op: Op::I32Eqz },
        Inst::Pop { dst: Reg16::DE },
        Inst::Ld8 { dst: Reg8::A, src: Reg8::D },
        Inst::Or { src: Reg8::E },
        Inst::Pop { dst: Reg16::DE },
        Inst::Or { src: Reg8::D },
        Inst::Or { src: Reg8::E },
        Inst::Jump { cond: Cond::Z, target: l1 },
        Inst::Ld16Imm { dst: Reg16::DE, imm: 0 },
        Inst::Push { src: Reg16::DE },
        Inst::Jump { cond: Cond::Always, target: l2 },
        Inst::LabelDef { label: l1 },
        Inst::Ld16Imm { dst: Reg16::DE, imm: 1 },
        Inst::Push { src: Reg16::DE },
        Inst::LabelDef { label: l2 },
        Inst::Ld8Imm { dst: Reg8::E, imm: 0 },
        Inst::Push { src: Reg16::DE },
    ]
}

pub fn emit_eqz(out: &mut Vec<Inst>, l1: Label, l2: Label)
    ensures
        final(out)@ == old(out)@ + eqz_insts(l1, l2),
{
    out.push(Inst::Comment { op: Op::I32Eqz });
    out.push(Inst::Pop { dst: Reg16::DE });
    out.push(Inst::Ld8 { dst: Reg8::A, src: Reg8::D });
    out.push(Inst::Or { src: Reg8::E });
    out.push(Inst::Pop { dst: Reg16::DE });
    out.push(Inst::Or { src: Reg8::D });
    out.push(Inst::Or { src: Reg8::E });
    out.push(Inst::Jump { cond: Cond::Z, target: l1 });
    out.push(Inst::Ld16Imm { dst: Reg16::DE, imm: 0 });
    out.push(Inst::Push { src: Reg16::DE });
    out.push(Inst::Jump { cond: Cond::Always, target: l2 });
    out.push(Inst::LabelDef { label: l1 });
    out.push(Inst::Ld16Imm { dst: Reg16::DE, imm: 1 });
    out.push(Inst::Push { src: Reg16::DE });
    out.push(Inst::LabelDef { label: l2 });
    out.push(Inst::Ld8Imm { dst: Reg8::E, imm: 0 });
    out.push(Inst::Push { src: Reg16::DE });
    proof {
        assert(out@ =~= old(out)@ + eqz_insts(l1, l2));
    }
}

/// `gt_u`: 32-bit unsigned compare by subtracting the value beneath the
/// top from the top value; the final borrow is set exactly when the
/// lower value is greater.
pub open spec fn gtu_insts(l1: Label, l2: Label) -> Seq<Inst> {
    seq![
        Inst::Comment { op: Op::I32GtU },
        Inst::Pop { dst: Reg16::IX },
        Inst::Pop { dst: Reg16::HL },
        Inst::Pop { dst: Reg16::DE },
        Inst::Pop { dst: Reg16::BC },
        Inst::And { src: Reg8::A },
        Inst::SbcHl { src: Reg16::BC },
        Inst::Ld8 { dst: Reg8::B, src: Reg8::H },
        Inst::Ld8 { dst: Reg8::C, src: Reg8::L },
        Inst::Push { src: Reg16::IX },
        Inst::Pop { dst: Reg16::HL },
        Inst::SbcHl { src: Reg16::DE },
    ] + flag_result_insts(Cond::C, 1, 0, l1, l2)
}

pub fn emit_gtu(out: &mut Vec<Inst>, l1: Label, l2: Label)
    ensures
        final(out)@ == old(out)@ + gtu_insts(l1, l2),
{
    out.push(Inst::Comment { op: Op::I32GtU });
    out.push(Inst::Pop { dst: Reg16::IX });
    out.push(Inst::Pop { dst: Reg16::HL });
    out.push(Inst::Pop { dst: Reg16::DE });
    out.push(Inst::Pop { dst: Reg16::BC });
    out.push(Inst::And { src: Reg8::A });
    out.push(Inst::SbcHl { src: Reg16::BC });
    out.push(Inst::Ld8 { dst: Reg8::B, src: Reg8::H });
    out.push(Inst::Ld8 { dst: Reg8::C, src: Reg8::L });
    out.push(Inst::Push { src: Reg16::IX });
    out.push(Inst::Pop { dst: Reg16::HL });
    out.push(Inst::SbcHl { src: Reg16::DE });
    emit_flag_result(out, Cond::C, 1, 0, l1, l2);
    proof {
        assert(out@ =~= old(out)@ + gtu_insts(l1, l2));
    }
}

/// `lt_u`: as `gt_u` with the operands taken in the other order.
pub open spec fn ltu_insts(l1: Label, l2: Label) -> Seq<Inst> {
    seq![
        Inst::Comment { op: Op::I32LtU },
        Inst::Pop { dst: Reg16::DE },
        Inst::Pop { dst: Reg16::BC },
        Inst::Pop { dst: Reg16::IX },
        Inst::Pop { dst: Reg16::HL },
        Inst::And { src: Reg8::A },
        Inst::SbcHl { src: Reg16::BC },
        Inst::Ld8 { dst: Reg8::B, src: Reg8::H },
        Inst::Ld8 { dst: Reg8::C, src: Reg8::L },
        Inst::Push { src: Reg16::IX },
        Inst::Pop { dst: Reg16::HL },
        Inst::SbcHl { src: Reg16::DE },
    ] + flag_result_insts(Cond::C, 1, 0, l1, l2)
}

pub fn emit_ltu(out: &mut Vec<Inst>, l1: Label, l2: Label)
    ensures
        final(out)@ == old(out)@ + ltu_insts(l1, l2),
{
    out.push(Inst::Comment { op: Op::I32LtU });
    out.push(Inst::Pop { dst: Reg16::DE });
    out.push(Inst::Pop { dst: Reg16::BC });
    out.push(Inst::Pop { dst: Reg16::IX });
    out.push(Inst::Pop { dst: Reg16::HL });
    out.push(Inst::And { src: Reg8::A });
    out.push(Inst::SbcHl { src: Reg16::BC });
    out.push(Inst::Ld8 { dst: Reg8::B, src: Reg8::H });
    out.push(Inst::Ld8 { dst: Reg8::C, src: Reg8::L });
    out.push(Inst::Push { src: Reg16::IX });
    out.push(Inst::Pop { dst: Reg16::HL });
    out.push(Inst::SbcHl { src: Reg16::DE });
    emit_flag_result(out, Cond::C, 1, 0, l1, l2);
    proof {
        assert(out@ =~= old(out)@ + ltu_insts(l1, l2));
    }
}

/// `ge_u`: the complement of `lt_u`: push 0 on borrow, else 1.
pub open spec fn geu_insts(l1: Label, l2: Label) -> Seq<Inst> {
    seq![
        Inst::Comment { op: Op::I32GeU },
        Inst::Pop { dst: Reg16::DE },
        Inst::Pop { dst: Reg16::BC },
        Inst::Pop { dst: Reg16::IX },
        Inst::Pop { dst: Reg16::HL },
        Inst::And { src: Reg8::A },
        Inst::SbcHl { src: Reg16::BC },
        Inst::Ld8 { dst: Reg8::B, src: Reg8::H },
        Inst::Ld8 { dst: Reg8::C, src: Reg8::L },
        Inst::Push { src: Reg16::IX },
        Inst::Pop { dst: Reg16::HL },
        Inst::SbcHl { src: Reg16::DE },
    ] + flag_result_insts(Cond::C, 0, 1, l1, l2)
}

pub fn emit_geu(out: &mut Vec<Inst>, l1: Label, l2: Label)
    ensures
        final(out)@ == old(out)@ + geu_insts(l1, l2),
{
    out.push(Inst::Comment { op: Op::I32GeU });
    out.push(Inst::Pop { dst: Reg16::DE });
    out.push(Inst::Pop { dst: Reg16::BC });
    out.push(Inst::Pop { dst: Reg16::IX });
    out.push(Inst::Pop { dst: Reg16::HL });
    out.push(Inst::And { src: Reg8::A });
    out.push(Inst::SbcHl { src: Reg16::BC });
    out.push(Inst::Ld8 { dst: Reg8::B, src: Reg8::H });
    out.push(Inst::Ld8 { dst: Reg8::C, src: Reg8::L });
    out.push(Inst::Push { src: Reg16::IX });
    out.push(Inst::Pop { dst: Reg16::HL });
    out.push(Inst::SbcHl { src: Reg16::DE });
    emit_flag_result(out, Cond::C, 0, 1, l1, l2);
    proof {
        assert(out@ =~= old(out)@ + geu_insts(l1, l2));
    }
}

/// `gt_s`: signed compare; flips the sign bit of both high limbs and
/// then compares unsigned, which orders two's-complement values
/// correctly.
pub open spec fn gts_insts(l1: Label, l2: Label) -> Seq<Inst> {
    seq![
        Inst::Comment { op: Op::I32GtS },
        Inst::Pop { dst: Reg16::HL },
        Inst::Ld8 { dst: Reg8::A, src: Reg8::H },
        Inst::XorImm { imm: 0x80 },
        Inst::Ld8 { dst: Reg8::H, src: Reg8::A },
        Inst::Pop { dst: Reg16::BC },
        Inst::Pop { dst: Reg16::DE },
        Inst::Ld8 { dst: Reg8::A, src: Reg8::D },
        Inst::XorImm { imm: 0x80 },
        Inst::Ld8 { dst: Reg8::D, src: Reg8::A },
        Inst::Pop { dst: Reg16::IX },
        Inst::Push { src: Reg16::HL },
        Inst::Push { src: Reg16::BC },
        Inst::Pop { dst: Reg16::HL },
        Inst::Push { src: Reg16::IX },
        Inst::Pop { dst: Reg16::BC },
        Inst::And { src: Reg8::A },
        Inst::SbcHl { src: Reg16::BC },
        Inst::Pop { dst: Reg16::HL },
        Inst::SbcHl { src: Reg16::DE },
    ] + flag_result_insts(Cond::C, 1, 0, l1, l2)
}

pub fn emit_gts(out: &mut Vec<Inst>, l1: Label, l2: Label)
    ensures
        final(out)@ == old(out)@ + gts_insts(l1, l2),
{
    out.push(Inst::Comment { op: Op::I32GtS });
    out.push(Inst::Pop { dst: Reg16::HL });
    out.push(Inst::Ld8 { dst: Reg8::A, src: Reg8::H });
    out.push(Inst::XorImm { imm: 0x80 });
    out.push(Inst::Ld8 { dst: Reg8::H, src: Reg8::A });
    out.push(Inst::Pop { dst: Reg16::BC });
    out.push(Inst::Pop { dst: Reg16::DE });
    out.push(Inst::Ld8 { dst: Reg8::A, src: Reg8::D });
    out.push(Inst::XorImm { imm: 0x80 });
    out.push(Inst::Ld8 { dst: Reg8::D, src: Reg8::A });
    out.push(Inst::Pop { dst: Reg16::IX });
    out.push(Inst::Push { src: Reg16::HL });
    out.push(Inst::Push { src: Reg16::BC });
    out.push(Inst::Pop { dst: Reg16::HL });
    out.push(Inst::Push { src: Reg16::IX });
    out.push(Inst::Pop { dst: Reg16::BC });
    out.push(Inst::And { src: Reg8::A });
    out.push(Inst::SbcHl { src: Reg16::BC });
    out.push(Inst::Pop { dst: Reg16::HL });
    out.push(Inst::SbcHl { src: Reg16::DE });
    emit_flag_result(out, Cond::C, 1, 0, l1, l2);
    proof {
        assert(out@ =~= old(out)@ + gts_insts(l1, l2));
    }
}

/// `ne`: subtract limb by limb, branching to the "not equal" label as
/// soon as either difference is nonzero.
pub open spec fn ne_insts(l1: Label, l2: Label) -> Seq<Inst> {
    seq![
        Inst::Comment { op: Op::I32Ne },
        Inst::Pop { dst: Reg16::IX },
        Inst::Pop { dst: Reg16::HL },
        Inst::Pop { dst: Reg16::DE },
        Inst::Pop { dst: Reg16::BC },
        Inst::And { src: Reg8::A },
        Inst::SbcHl { src: Reg16::BC },
        Inst::Jump { cond: Cond::NZ, target: l1 },
        Inst::Ld8 { dst: Reg8::B, src: Reg8::H },
        Inst::Ld8 { dst: Reg8::C, src: Reg8::L },
        Inst::Push { src: Reg16::IX },
        Inst::Pop { dst: Reg16::HL },
        Inst::SbcHl { src: Reg16::DE },
        Inst::Jump { cond: Cond::NZ, target: l1 },
        Inst::Ld16Imm { dst: Reg16::HL, imm: 0 },
        Inst::Push { src: Reg16::HL },
        Inst::Jump { cond: Cond::Always, target: l2 },
        Inst::LabelDef { label: l1 },
        Inst::Ld16Imm { dst: Reg16::HL, imm: 1 },
        Inst::Push { src: Reg16::HL },
        Inst::LabelDef { label: l2 },
        Inst::Ld16Imm { dst: Reg16::HL, imm: 0 },
        Inst::Push { src: Reg16::HL },
    ]
}

pub fn emit_ne(out: &mut Vec<Inst>, l1: Label, l2: Label)
    ensures
        final(out)@ == old(out)@ + ne_insts(l1, l2),
{
    out.push(Inst::Comment { op: Op::I32Ne });
    out.push(Inst::Pop { dst: Reg16::IX });
    out.push(Inst::Pop { dst: Reg16::HL });
    out.push(Inst::Pop { dst: Reg16::DE });
    out.push(Inst::Pop { dst: Reg16::BC });
    out.push(Inst::And { src: Reg8::A });
    out.push(Inst::SbcHl { src: Reg16::BC });
    out.push(Inst::Jump { cond: Cond::NZ, target: l1 });
    out.push(Inst::Ld8 { dst: Reg8::B, src: Reg8::H });
    out.push(Inst::Ld8 { dst: Reg8::C, src: Reg8::L });
    out.push(Inst::Push { src: Reg16::IX });
    out.push(Inst::Pop { dst: Reg16::HL });
    out.push(Inst::SbcHl { src: Reg16::DE });
    out.push(Inst::Jump { cond: Cond::NZ, target: l1 });
    out.push(Inst::Ld16Imm { dst: Reg16::HL, imm: 0 });
    out.push(Inst::Push { src: Reg16::HL });
    out.push(Inst::Jump { cond: Cond::Always, target: l2 });
    out.push(Inst::LabelDef { label: l1 });
    out.push(Inst::Ld16Imm { dst: Reg16::HL, imm: 1 });
    out.push(Inst::Push { src: Reg16::HL });
    out.push(Inst::LabelDef { label: l2 });
    out.push(Inst::Ld16Imm { dst: Reg16::HL, imm: 0 });
    out.push(Inst::Push { src: Reg16::HL });
    proof {
        assert(out@ =~= old(out)@ + ne_insts(l1, l2));
    }
}

/// `select`: test the popped condition, then keep whichever of the two
/// candidate values the condition picks, discarding the other.
pub open spec fn select_insts(l1: Label, l2: Label) -> Seq<Inst> {
    seq![
        Inst::Comment { op: Op::Select },
        Inst::Pop { dst: Reg16::DE },
        Inst::Ld8 { dst: Reg8::A, src: Reg8::D },
        Inst::Or { src: Reg8::E },
        Inst::Pop { dst: Reg16::DE },
        Inst::Or { src: Reg8::D },
        Inst::Or { src: Reg8::E },
        Inst::Jump { cond: Cond::Z, target: l1 },
        Inst::Pop { dst: Reg16::DE },
        Inst::Pop { dst: Reg16::DE },
        Inst::Pop { dst: Reg16::DE },
        Inst::Pop { dst: Reg16::BC },
        Inst::Jump { cond: Cond::Always, target: l2 },
        Inst::LabelDef { label: l1 },
        Inst::Pop { dst: Reg16::DE },
        Inst::Pop { dst: Reg16::BC },
        Inst::Pop { dst: Reg16::IX },
        Inst::Pop { dst: Reg16::IX },
        Inst::LabelDef { label: l2 },
        Inst::Push { src: Reg16::BC },
        Inst::Push { src: Reg16::DE },
    ]
}

pub fn emit_select(out: &mut Vec<Inst>, l1: Label, l2: Label)
    ensures
        final(out)@ == old(out)@ + select_insts(l1, l2),
{
    out.push(Inst::Comment { op: Op::Select });
    out.push(Inst::Pop { dst: Reg16::DE });
    out.push(Inst::Ld8 { dst: Reg8::A, src: Reg8::D });
    out.push(Inst::Or { src: Reg8::E });
    out.push(Inst::Pop { dst: Reg16::DE });
    out.push(Inst::Or { src: Reg8::D });
    out.push(Inst::Or { src: Reg8::E });
    out.push(Inst::Jump { cond: Cond::Z, target: l1 });
    out.push(Inst::Pop { dst: Reg16::DE });
    out.push(Inst::Pop { dst: Reg16::DE });
    out.push(Inst::Pop { dst: Reg16::DE });
    out.push(Inst::Pop { dst: Reg16::BC });
    out.push(Inst::Jump { cond: Cond::Always, target: l2 });
    out.push(Inst::LabelDef { label: l1 });
    out.push(Inst::Pop { dst: Reg16::DE });
    out.push(Inst::Pop { dst: Reg16::BC });
    out.push(Inst::Pop { dst: Reg16::IX });
    out.push(Inst::Pop { dst: Reg16::IX });
    out.push(Inst::LabelDef { label: l2 });
    out.push(Inst::Push { src: Reg16::BC });
    out.push(Inst::Push { src: Reg16::DE });
    proof {
        assert(out@ =~= old(out)@ + select_insts(l1, l2));
    }
}

/// `br`: an unconditional jump to the resolved target label.
pub open spec fn br_insts(d: usize, target: Label) -> Seq<Inst> {
    seq![
        Inst::Comment { op: Op::Br { relative_depth: d } },
        Inst::Jump { cond: Cond::Always, target },
    ]
}

pub fn emit_br(out: &mut Vec<Inst>, d: usize, target: Label)
    ensures
        final(out)@ == old(out)@ + br_insts(d, target),
{
    out.push(Inst::Comment { op: Op::Br { relative_depth: d } });
    out.push(Inst::Jump { cond: Cond::Always, target });
    proof {
        assert(out@ =~= old(out)@ + br_insts(d, target));
    }
}

/// `br_if`: pop one 4-byte value, OR its bytes together, and jump to the
/// resolved target label when it is nonzero.
pub open spec fn br_if_insts(d: usize, target: Label) -> Seq<Inst> {
    seq![
        Inst::Comment { op: Op::BrIf { relative_depth: d } },
        Inst::Pop { dst: Reg16::DE },
        Inst::Ld8 { dst: Reg8::A, src: Reg8::D },
        Inst::Or { src: Reg8::E },
        Inst::Pop { dst: Reg16::DE },
        Inst::Or { src: Reg8::D },
        Inst::Or { src: Reg8::E },
        Inst::Jump { cond: Cond::NZ, target },
    ]
}

pub fn emit_br_if(out: &mut Vec<Inst>, d: usize, target: Label)
    ensures
        final(out)@ == old(out)@ + br_if_insts(d, target),
{
    out.push(Inst::Comment { op: Op::BrIf { relative_depth: d } });
    out.push(Inst::Pop { dst: Reg16::DE });
    out.push(Inst::Ld8 { dst: Reg8::A, src: Reg8::D });
    out.push(Inst::Or { src: Reg8::E });
    out.push(Inst::Pop { dst: Reg16::DE });
    out.push(Inst::Or { src: Reg8::D });
    out.push(Inst::Or { src: Reg8::E });
    out.push(Inst::Jump { cond: Cond::NZ, target });
    proof {
        assert(out@ =~= old(out)@ + br_if_insts(d, target));
    }
}

/// Pushes of `n` zero-valued 4-byte slots; BC must already hold zero.
pub open spec fn zero_slot_insts(n: nat) -> Seq<Inst>
    decreases n,
{
    if n == 0 {
        seq![]
    } else {
        zero_slot_insts((n - 1) as nat) + seq![
            Inst::Push { src: Reg16::BC },
            Inst::Push { src: Reg16::BC },
        ]
    }
}

/// Pops that discard `n` 4-byte slots. They go into HL, which is dead
/// at that point of the calling convention: BC and DE hold the limbs of
/// a relocated result and must survive the discarding.
pub open spec fn drop_slot_insts(n: nat) -> Seq<Inst>
    decreases n,
{
    if n == 0 {
        seq![]
    } else {
        drop_slot_insts((n - 1) as nat) + seq![
            Inst::Pop { dst: Reg16::HL },
            Inst::Pop { dst: Reg16::HL },
        ]
    }
}

/// The complete calling convention for invoking function `target` with
/// `p` parameters, `l` locals and a result exactly when `r`: the caller
/// reserves zeroed local slots, saves its frame pointer, calls, then
/// relocates the result (if any), restores the frame pointer, discards
/// the argument and local slots, and finally pushes the result back.
/// The same sequence serves the synthesized outer entry invocation and
/// every `call` operator.
pub open spec fn call_insts(p: nat, l: nat, r: bool, target: usize) -> Seq<Inst> {
    seq![
        Inst::Comment { op: Op::Call { function_index: target } },
        Inst::Ld16Imm { dst: Reg16::BC, imm: 0 },
    ] + zero_slot_insts(l) + seq![
        Inst::Push { src: Reg16::IY },
        Inst::Call { func: target },
    ] + (if r {
        seq![Inst::Pop { dst: Reg16::DE }, Inst::Pop { dst: Reg16::BC }]
    } else {
        Seq::<Inst>::empty()
    }) + seq![Inst::Pop { dst: Reg16::IY }] + drop_slot_insts(p) + drop_slot_insts(l) + (if r {
        seq![Inst::Push { src: Reg16::BC }, Inst::Push { src: Reg16::DE }]
    } else {
        Seq::<Inst>::empty()
    })
}

pub fn emit_call(out: &mut Vec<Inst>, p: usize, l: usize, r: bool, target: usize)
    ensures
        final(out)@ == old(out)@ + call_insts(p as nat, l as nat, r, target),
{
    out.push(Inst::Comment { op: Op::Call { function_index: target } });
    out.push(Inst::Ld16Imm { dst: Reg16::BC, imm: 0 });
    let mut k: usize = 0;
    while k < l
        invariant
            k <= l,
            out@ == old(out)@ + seq![
                Inst::Comment { op: Op::Call { function_index: target } },
                Inst::Ld16Imm { dst: Reg16::BC, imm: 0 },
            ] + zero_slot_insts(k as nat),
        decreases l - k,
    {
        out.push(Inst::Push { src: Reg16::BC });
        out.push(Inst::Push { src: Reg16::BC });
        k = k + 1;
        proof {
            assert(out@ =~= old(out)@ + seq![
                Inst::Comment { op: Op::Call { function_index: target } },
                Inst::Ld16Imm { dst: Reg16::BC, imm: 0 },
            ] + zero_slot_insts(k as nat));
        }
    }
    out.push(Inst::Push { src: Reg16::IY });
    out.push(Inst::Call { func: target });
    if r {
        out.push(Inst::Pop { dst: Reg16::DE });
        out.push(Inst::Pop { dst: Reg16::BC });
    }
    out.push(Inst::Pop { dst: Reg16::IY });
    let ghost mid = out@;
    let mut k2: usize = 0;
    while k2 < p
        invariant
            k2 <= p,
            out@ == mid + drop_slot_insts(k2 as nat),
        decreases p - k2,
    {
        out.push(Inst::Pop { dst: Reg16::HL });
        out.push(Inst::Pop { dst: Reg16::HL });
        k2 = k2 + 1;
        proof {
            assert(out@ =~= mid + drop_slot_insts(k2 as nat));
        }
    }
    let ghost mid2 = out@;
    let mut k3: usize = 0;
    while k3 < l
        invariant
            k3 <= l,
            out@ == mid2 + drop_slot_insts(k3 as nat),
        decreases l - k3,
    {
        out.push(Inst::Pop { dst: Reg16::HL });
        out.push(Inst::Pop { dst: Reg16::HL });
        k3 = k3 + 1;
        proof {
            assert(out@ =~= mid2 + drop_slot_insts(k3 as nat));
        }
    }
    if r {
        out.push(Inst::Push { src: Reg16::BC });
        out.push(Inst::Push { src: Reg16::DE });
    }
    proof {
        assert(out@ =~= old(out)@ + call_insts(p as nat, l as nat, r, target));
    }
}

/// The return sequence: with a result, relocate the 4-byte result below
/// the return address so the caller finds it after the return; then
/// return.
pub open spec fn ret_insts(r: bool) -> Seq<Inst> {
    if r {
        seq![
            Inst::Pop { dst: Reg16::DE },
            Inst::Pop { dst: Reg16::BC },
            Inst::Pop { dst: Reg16::HL },
            Inst::Push { src: Reg16::BC },
            Inst::Push { src: Reg16::DE },
            Inst::Push { src: Reg16::HL },
            Inst::Ret,
        ]
    } else {
        seq![Inst::Ret]
    }
}

pub fn emit_ret(out: &mut Vec<Inst>, r: bool)
    ensures
        final(out)@ == old(out)@ + ret_insts(r),
{
    if r {
        out.push(Inst::Pop { dst: Reg16::DE });
        out.push(Inst::Pop { dst: Reg16::BC });
        out.push(Inst::Pop { dst: Reg16::HL });
        out.push(Inst::Push { src: Reg16::BC });
        out.push(Inst::Push { src: Reg16::DE });
        out.push(Inst::Push { src: Reg16::HL });
    }
    out.push(Inst::Ret);
    proof {
        assert(out@ =~= old(out)@ + ret_insts(r));
    }
}

/// One each of two labels, if `l` is among them.
pub open spec fn pair_count(l1: Label, l2: Label, l: Label) -> nat {
    (if l == l1 {
        1nat
    } else {
        0nat
    }) + (if l == l2 {
        1nat
    } else {
        0nat
    })
}

pub proof fn lemma_const_def_count(value: u32, l: Label)
    ensures
        def_count(const_insts(value), l) == 0,
{
    reveal_with_fuel(def_count, 7);
}

pub proof fn lemma_local_get_def_count(total: usize, idx: usize, l: Label)
    ensures
        def_count(local_get_insts(total, idx), l) == 0,
{
    reveal_with_fuel(def_count, 9);
}

pub proof fn lemma_local_set_def_count(total: usize, idx: usize, l: Label)
    ensures
        def_count(local_set_insts(total, idx), l) == 0,
{
    reveal_with_fuel(def_count, 9);
}

pub proof fn lemma_local_tee_def_count(total: usize, idx: usize, l: Label)
    ensures
        def_count(local_tee_insts(total, idx), l) == 0,
{
    reveal_with_fuel(def_count, 13);
}

pub proof fn lemma_global_get_def_count(idx: usize, l: Label)
    ensures
        def_count(global_get_insts(idx), l) == 0,
{
    reveal_with_fuel(def_count, 10);
}

pub proof fn lemma_global_set_def_count(idx: usize, l: Label)
    ensures
        def_count(global_set_insts(idx), l) == 0,
{
    reveal_with_fuel(def_count, 10);
}

pub proof fn lemma_store8_def_count(offset: u16, l: Label)
    ensures
        def_count(store8_insts(offset), l) == 0,
{
    reveal_with_fuel(def_count, 10);
}

pub proof fn lemma_store_def_count(offset: u16, l: Label)
    ensures
        def_count(store_insts(offset), l) == 0,
{
    reveal_with_fuel(def_count, 13);
}

pub proof fn lemma_load_def_count(offset: u16, l: Label)
    ensures
        def_count(load_insts(offset), l) == 0,
{
    reveal_with_fuel(def_count, 13);
}

pub proof fn lemma_load8u_def_count(offset: u16, l: Label)
    ensures
        def_count(load8u_insts(offset), l) == 0,
{
    reveal_with_fuel(def_count, 12);
}

pub proof fn lemma_add_def_count(l: Label)
    ensures
        def_count(add_insts(), l) == 0,
{
    reveal_with_fuel(def_count, 15);
}

pub proof fn lemma_sub_def_count(l: Label)
    ensures
        def_count(sub_insts(), l) == 0,
{
    reveal_with_fuel(def_count, 14);
}

#[verifier::rlimit(30)]
pub proof fn lemma_and_def_count(l: Label)
    ensures
        def_count(and_insts(), l) == 0,
{
    reveal_with_fuel(def_count, 23);
}

pub proof fn lemma_flag_result_def_count(
    cond: Cond,
    oj: u16,
    of: u16,
    l1: Label,
    l2: Label,
    l: Label,
)
    ensures
        def_count(flag_result_insts(cond, oj, of, l1, l2), l) == pair_count(l1, l2, l),
{
    reveal_with_fuel(def_count, 12);
}

#[verifier::rlimit(30)]
pub proof fn lemma_eqz_def_count(l1: Label, l2: Label, l: Label)
    ensures
        def_count(eqz_insts(l1, l2), l) == pair_count(l1, l2, l),
{
    reveal_with_fuel(def_count, 19);
}

#[verifier::rlimit(30)]
pub proof fn lemma_ne_def_count(l1: Label, l2: Label, l: Label)
    ensures
        def_count(ne_insts(l1, l2), l) == pair_count(l1, l2, l),
{
    reveal_with_fuel(def_count, 25);
}

#[verifier::rlimit(30)]
pub proof fn lemma_select_def_count(l1: Label, l2: Label, l: Label)
    ensures
        def_count(select_insts(l1, l2), l) == pair_count(l1, l2, l),
{
    reveal_with_fuel(def_count, 23);
}

#[verifier::rlimit(30)]
pub proof fn lemma_gtu_def_count(l1: Label, l2: Label, l: Label)
    ensures
        def_count(gtu_insts(l1, l2), l) == pair_count(l1, l2, l),
{
    assert(def_count(gtu_insts(l1, l2).subrange(0, 12), l) == 0) by {
        reveal_with_fuel(def_count, 14);
    }
    lemma_def_count_add(
        gtu_insts(l1, l2).subrange(0, 12),
        flag_result_insts(Cond::C, 1, 0, l1, l2),
        l,
    );
    lemma_flag_result_def_count(Cond::C, 1, 0, l1, l2, l);
    assert(gtu_insts(l1, l2).subrange(0, 12) + flag_result_insts(Cond::C, 1, 0, l1, l2)
        =~= gtu_insts(l1, l2));
}

#[verifier::rlimit(30)]
pub proof fn lemma_ltu_def_count(l1: Label, l2: Label, l: Label)
    ensures
        def_count(ltu_insts(l1, l2), l) == pair_count(l1, l2, l),
{
    assert(def_count(ltu_insts(l1, l2).subrange(0, 12), l) == 0) by {
        reveal_with_fuel(def_count, 14);
    }
    lemma_def_count_add(
        ltu_insts(l1, l2).subrange(0, 12),
        flag_result_insts(Cond::C, 1, 0, l1, l2),
        l,
    );
    lemma_flag_result_def_count(Cond::C, 1, 0, l1, l2, l);
    assert(ltu_insts(l1, l2).subrange(0, 12) + flag_result_insts(Cond::C, 1, 0, l1, l2)
        =~= ltu_insts(l1, l2));
}

#[verifier::rlimit(30)]
pub proof fn lemma_geu_def_count(l1: Label, l2: Label, l: Label)
    ensures
        def_count(geu_insts(l1, l2), l) == pair_count(l1, l2, l),
{
    assert(def_count(geu_insts(l1, l2).subrange(0, 12), l) == 0) by {
        reveal_with_fuel(def_count, 14);
    }
    lemma_def_count_add(
        geu_insts(l1, l2).subrange(0, 12),
        flag_result_insts(Cond::C, 0, 1, l1, l2),
        l,
    );
    lemma_flag_result_def_count(Cond::C, 0, 1, l1, l2, l);
    assert(geu_insts(l1, l2).subrange(0, 12) + flag_result_insts(Cond::C, 0, 1, l1, l2)
        =~= geu_insts(l1, l2));
}

#[verifier::rlimit(30)]
pub proof fn lemma_gts_def_count(l1: Label, l2: Label, l: Label)
    ensures
        def_count(gts_insts(l1, l2), l) == pair_count(l1, l2, l),
{
    assert(def_count(gts_insts(l1, l2).subrange(0, 20), l) == 0) by {
        reveal_with_fuel(def_count, 22);
    }
    lemma_def_count_add(
        gts_insts(l1, l2).subrange(0, 20),
        flag_result_insts(Cond::C, 1, 0, l1, l2),
        l,
    );
    lemma_flag_result_def_count(Cond::C, 1, 0, l1, l2, l);
    assert(gts_insts(l1, l2).subrange(0, 20) + flag_result_insts(Cond::C, 1, 0, l1, l2)
        =~= gts_insts(l1, l2));
}

pub proof fn lemma_br_def_count(d: usize, target: Label, l: Label)
    ensures
        def_count(br_insts(d, target), l) == 0,
{
    reveal_with_fuel(def_count, 4);
}

pub proof fn lemma_br_if_def_count(d: usize, target: Label, l: Label)
    ensures
        def_count(br_if_insts(d, target), l) == 0,
{
    reveal_with_fuel(def_count, 10);
}

pub proof fn lemma_zero_slots_def_count(n: nat, l: Label)
    ensures
        def_count(zero_slot_insts(n), l) == 0,
    decreases n,
{
    if n > 0 {
        lemma_zero_slots_def_count((n - 1) as nat, l);
        lemma_def_count_add(
            zero_slot_insts((n - 1) as nat),
            seq![Inst::Push { src: Reg16::BC }, Inst::Push { src: Reg16::BC }],
            l,
        );
        reveal_with_fuel(def_count, 4);
    }
}

pub proof fn lemma_drop_slots_def_count(n: nat, l: Label)
    ensures
        def_count(drop_slot_insts(n), l) == 0,
    decreases n,
{
    if n > 0 {
        lemma_drop_slots_def_count((n - 1) as nat, l);
        lemma_def_count_add(
            drop_slot_insts((n - 1) as nat),
            seq![Inst::Pop { dst: Reg16::HL }, Inst::Pop { dst: Reg16::HL }],
            l,
        );
        reveal_with_fuel(def_count, 4);
    }
}

#[verifier::rlimit(60)]
pub proof fn lemma_call_def_count(p: nat, lc: nat, r: bool, target: usize, l: Label)
    ensures
        def_count(call_insts(p, lc, r, target), l) == 0,
{
    lemma_zero_slots_def_count(lc, l);
    lemma_drop_slots_def_count(p, l);
    lemma_drop_slots_def_count(lc, l);
    let a = seq![
        Inst::Comment { op: Op::Call { function_index: target } },
        Inst::Ld16Imm { dst: Reg16::BC, imm: 0 },
    ];
    let b = seq![Inst::Push { src: Reg16::IY }, Inst::Call { func: target }];
    let cr = if r {
        seq![Inst::Pop { dst: Reg16::DE }, Inst::Pop { dst: Reg16::BC }]
    } else {
        Seq::<Inst>::empty()
    };
    let d = seq![Inst::Pop { dst: Reg16::IY }];
    let e = if r {
        seq![Inst::Push { src: Reg16::BC }, Inst::Push { src: Reg16::DE }]
    } else {
        Seq::<Inst>::empty()
    };
    assert(def_count(a, l) == 0 && def_count(b, l) == 0 && def_count(cr, l) == 0 && def_count(
        d,
        l,
    ) == 0 && def_count(e, l) == 0) by {
        reveal_with_fuel(def_count, 4);
    }
    lemma_def_count_add(a, zero_slot_insts(lc), l);
    lemma_def_count_add(a + zero_slot_insts(lc), b, l);
    lemma_def_count_add(a + zero_slot_insts(lc) + b, cr, l);
    lemma_def_count_add(a + zero_slot_insts(lc) + b + cr, d, l);
    lemma_def_count_add(a + zero_slot_insts(lc) + b + cr + d, drop_slot_insts(p), l);
    lemma_def_count_add(
        a + zero_slot_insts(lc) + b + cr + d + drop_slot_insts(p),
        drop_slot_insts(lc),
        l,
    );
    lemma_def_count_add(
        a + zero_slot_insts(lc) + b + cr + d + drop_slot_insts(p) + drop_slot_insts(lc),
        e,
        l,
    );
}

pub proof fn lemma_ret_def_count(r: bool, l: Label)
    ensures
        def_count(ret_insts(r), l) == 0,
{
    reveal_with_fuel(def_count, 9);
}

} // verus!
