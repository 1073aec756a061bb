//! Structured assembly records. Translation produces a sequence of these;
//! rendering them to text is a separate, final step, which keeps the
//! translation logic testable independent of formatting.

use vstd::prelude::*;
use crate::ast::Op;
use crate::label::Label;

verus! {

/// An 8-bit register.
#[derive(Clone, Copy, PartialEq, Eq, Structural, Debug)]
pub enum Reg8 {
    A,
    B,
    C,
    D,
    E,
    H,
    L,
}

/// A 16-bit register or register pair.
#[derive(Clone, Copy, PartialEq, Eq, Structural, Debug)]
pub enum Reg16 {
    BC,
    DE,
    HL,
    IX,
    IY,
    SP,
}

/// An index register usable for displacement addressing.
#[derive(Clone, Copy, PartialEq, Eq, Structural, Debug)]
pub enum IdxReg {
    IX,
    IY,
}

/// A jump condition on the processor flags.
#[derive(Clone, Copy, PartialEq, Eq, Structural, Debug)]
pub enum Cond {
    Always,
    /// Zero flag set.
    Z,
    /// Zero flag clear.
    NZ,
    /// Carry flag set.
    C,
}

/// One emitted line: an instruction, a label definition, or a comment
/// naming the source operator the following instructions implement.
#[derive(Clone, Copy, PartialEq, Eq, Structural, Debug)]
pub enum Inst {
    /// `LD rr,nn`
    Ld16Imm { dst: Reg16, imm: u16 },
    /// `LD r,n`
    Ld8Imm { dst: Reg8, imm: u8 },
    /// `LD r,r'`
    Ld8 { dst: Reg8, src: Reg8 },
    /// `LD r,(ii+d)`
    Ld8FromMem { dst: Reg8, base: IdxReg, disp: u8 },
    /// `LD (ii+d),r`
    Ld8ToMem { base: IdxReg, disp: u8, src: Reg8 },
    /// `PUSH rr`
    Push { src: Reg16 },
    /// `POP rr`
    Pop { dst: Reg16 },
    /// `ADD HL,rr`: 16-bit add into HL, sets the carry flag.
    AddHl { src: Reg16 },
    /// `ADC HL,rr`: 16-bit add with carry into HL.
    AdcHl { src: Reg16 },
    /// `SBC HL,rr`: 16-bit subtract with borrow from HL.
    SbcHl { src: Reg16 },
    /// `ADD ii,rr`: 16-bit add into an index register.
    AddIdx { dst: IdxReg, src: Reg16 },
    /// `AND r`: and into the accumulator, clears the carry flag.
    And { src: Reg8 },
    /// `OR r`: or into the accumulator.
    Or { src: Reg8 },
    /// `XOR n`: exclusive-or an immediate into the accumulator.
    XorImm { imm: u8 },
    /// `EX DE,HL`
    ExDeHl,
    /// `CALL func_<n>`
    Call { func: usize },
    /// `RET`
    Ret,
    /// `HALT`
    Halt,
    /// `JP label_<n>`, possibly conditional.
    Jump { cond: Cond, target: Label },
    /// The definition line `label_<n>:`.
    LabelDef { label: Label },
    /// The definition line `func_<n>:`.
    FuncLabel { func: usize },
    /// A comment line naming a source operator.
    Comment { op: Op },
}

/// Number of `label_<n>:` definition records for label `l` in `s`.
pub open spec fn def_count(s: Seq<Inst>, l: Label) -> nat
    decreases s.len(),
{
    if s.len() == 0 {
        0
    } else {
        def_count(s.drop_last(), l) + if s.last() == (Inst::LabelDef { label: l }) {
            1nat
        } else {
            0nat
        }
    }
}

pub proof fn lemma_def_count_add(s: Seq<Inst>, t: Seq<Inst>, l: Label)
    ensures
        def_count(s + t, l) == def_count(s, l) + def_count(t, l),
    decreases t.len(),
{
    if t.len() == 0 {
        assert(s + t =~= s);
    } else {
        lemma_def_count_add(s, t.drop_last(), l);
        assert((s + t).drop_last() =~= s + t.drop_last());
    }
}

} // verus!
