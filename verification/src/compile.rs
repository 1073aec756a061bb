//! The instruction translator: one left-to-right scan per function body,
//! resolving structured control flow to flat labels and emitting the
//! per-operator sequences of `emit`. The specification below pins the
//! whole translation down: a module either yields exactly the
//! instruction sequence `module_insts` or fails with exactly the error
//! `module_err`, with no partial output.

use vstd::prelude::*;
use crate::ast::{CompileError, FuncSig, FunctionDef, Module, Op, ValKind};
use crate::emit::{
    add_insts, and_insts, br_if_insts, br_insts, call_insts, const_insts, eqz_insts, geu_insts,
    global_get_insts, global_set_insts, gts_insts, gtu_insts, load8u_insts, load_insts,
    local_get_insts, local_set_insts, local_tee_insts, ltu_insts, ne_insts, ret_insts,
    select_insts, store8_insts, store_insts, sub_insts,
};
use crate::emit::{
    lemma_add_def_count, lemma_and_def_count, lemma_br_def_count, lemma_br_if_def_count,
    lemma_call_def_count, lemma_const_def_count, lemma_eqz_def_count, lemma_geu_def_count,
    lemma_global_get_def_count, lemma_global_set_def_count, lemma_gts_def_count,
    lemma_gtu_def_count, lemma_load8u_def_count, lemma_load_def_count, lemma_local_get_def_count,
    lemma_local_set_def_count, lemma_local_tee_def_count, lemma_ltu_def_count, lemma_ne_def_count,
    lemma_ret_def_count, lemma_select_def_count, lemma_store8_def_count, lemma_store_def_count,
    lemma_sub_def_count,
    pair_count,
};
use crate::emit::{
    emit_add, emit_and, emit_br, emit_br_if, emit_call, emit_const, emit_eqz, emit_geu,
    emit_global_get, emit_global_set, emit_gts, emit_gtu, emit_load, emit_load8u, emit_local_get,
    emit_local_set, emit_local_tee, emit_ltu, emit_ne, emit_ret, emit_select, emit_store,
    emit_store8, emit_sub,
};
use crate::frame::{frame_check, frame_fits, MAX_GLOBALS};
use crate::inst::{def_count, lemma_def_count_add, IdxReg, Inst, Reg16};
use crate::label::{Label, Labeler};

verus! {

/// The control-flow resolver's state during the scan of one body: the
/// next fresh label index, the stack of branch targets (one per open
/// block or loop), and the parallel stack recording which constructs
/// still owe a label at their `end`.
pub struct Flow {
    pub next: nat,
    pub targets: Seq<Label>,
    pub closers: Seq<Option<Label>>,
}

pub open spec fn init_flow(base: nat) -> Flow {
    Flow { next: base, targets: seq![], closers: seq![] }
}

/// Whether one operator is acceptable at a point with `depth` open
/// constructs, in a function with `total` parameter + local slots, in a
/// module of `nfuncs` functions.
pub open spec fn op_ok(op: Op, total: nat, nfuncs: nat, depth: nat) -> bool {
    match op {
        Op::LocalGet { local_index } => local_index < total,
        Op::LocalSet { local_index } => local_index < total,
        Op::LocalTee { local_index } => local_index < total,
        Op::GlobalGet { global_index } => global_index < MAX_GLOBALS,
        Op::GlobalSet { global_index } => global_index < MAX_GLOBALS,
        Op::Block { empty_type } => empty_type,
        Op::Loop { empty_type } => empty_type,
        Op::Br { relative_depth } => relative_depth < depth,
        Op::BrIf { relative_depth } => relative_depth < depth,
        Op::Call { function_index } => function_index < nfuncs,
        Op::Unsupported => false,
        _ => true,
    }
}

/// The error reported for an operator that fails `op_ok`, at position
/// `i` of function `fi`.
pub open spec fn op_err(op: Op, fi: usize, i: usize) -> CompileError {
    match op {
        Op::LocalGet { .. } => CompileError::LocalOutOfRange { function: fi, index: i },
        Op::LocalSet { .. } => CompileError::LocalOutOfRange { function: fi, index: i },
        Op::LocalTee { .. } => CompileError::LocalOutOfRange { function: fi, index: i },
        Op::GlobalGet { .. } => CompileError::GlobalOutOfRange { function: fi, index: i },
        Op::GlobalSet { .. } => CompileError::GlobalOutOfRange { function: fi, index: i },
        Op::Block { .. } => CompileError::NonEmptyBlockType { function: fi, index: i },
        Op::Loop { .. } => CompileError::NonEmptyBlockType { function: fi, index: i },
        Op::Br { .. } => CompileError::BranchDepthOutOfRange { function: fi, index: i },
        Op::BrIf { .. } => CompileError::BranchDepthOutOfRange { function: fi, index: i },
        Op::Call { .. } => CompileError::CallTargetOutOfRange { function: fi, index: i },
        _ => CompileError::UnsupportedOperator { function: fi, index: i },
    }
}

/// How one operator transforms the control-flow state: loops and blocks
/// open a construct (consuming one label), `end` closes one, and the
/// operators that branch internally consume two labels.
pub open spec fn op_flow(op: Op, fl: Flow) -> Flow {
    match op {
        Op::Block { .. } => Flow {
            next: fl.next + 1,
            targets: fl.targets.push(Label(fl.next as usize)),
            closers: fl.closers.push(Some(Label(fl.next as usize))),
        },
        Op::Loop { .. } => Flow {
            next: fl.next + 1,
            targets: fl.targets.push(Label(fl.next as usize)),
            closers: fl.closers.push(None),
        },
        Op::End => if fl.targets.len() > 0 {
            Flow { next: fl.next, targets: fl.targets.drop_last(), closers: fl.closers.drop_last() }
        } else {
            fl
        },
        Op::I32Eqz => Flow { next: fl.next + 2, targets: fl.targets, closers: fl.closers },
        Op::I32GtU => Flow { next: fl.next + 2, targets: fl.targets, closers: fl.closers },
        Op::I32GtS => Flow { next: fl.next + 2, targets: fl.targets, closers: fl.closers },
        Op::I32LtU => Flow { next: fl.next + 2, targets: fl.targets, closers: fl.closers },
        Op::I32GeU => Flow { next: fl.next + 2, targets: fl.targets, closers: fl.closers },
        Op::I32Ne => Flow { next: fl.next + 2, targets: fl.targets, closers: fl.closers },
        Op::Select => Flow { next: fl.next + 2, targets: fl.targets, closers: fl.closers },
        _ => fl,
    }
}

/// How one operator changes the open-construct count; agrees with
/// `op_flow` on the length of the target stack.
pub open spec fn op_depth(op: Op, depth: nat) -> nat {
    match op {
        Op::Block { .. } => depth + 1,
        Op::Loop { .. } => depth + 1,
        Op::End => if depth > 0 {
            (depth - 1) as nat
        } else {
            depth
        },
        _ => depth,
    }
}

/// The instruction sequence one operator emits, given the function's
/// slot count, the module's functions (for the calling convention), the
/// function's result arity, and the control-flow state.
pub open spec fn op_emit(op: Op, total: usize, funcs: Seq<FunctionDef>, fres: bool, fl: Flow) -> Seq<
    Inst,
> {
    let l1 = Label(fl.next as usize);
    let l2 = Label((fl.next + 1) as usize);
    match op {
        Op::I32Const { value } => const_insts(value),
        Op::LocalGet { local_index } => local_get_insts(total, local_index),
        Op::LocalSet { local_index } => local_set_insts(total, local_index),
        Op::LocalTee { local_index } => local_tee_insts(total, local_index),
        Op::GlobalGet { global_index } => global_get_insts(global_index),
        Op::GlobalSet { global_index } => global_set_insts(global_index),
        Op::I32Store8 { offset } => store8_insts(offset),
        Op::I32Store { offset } => store_insts(offset),
        Op::I32Load { offset } => load_insts(offset),
        Op::I32Load8U { offset } => load8u_insts(offset),
        Op::I32Eqz => eqz_insts(l1, l2),
        Op::I32Add => add_insts(),
        Op::I32Sub => sub_insts(),
        Op::I32And => and_insts(),
        Op::I32GtU => gtu_insts(l1, l2),
        Op::I32GtS => gts_insts(l1, l2),
        Op::I32LtU => ltu_insts(l1, l2),
        Op::I32GeU => geu_insts(l1, l2),
        Op::I32Ne => ne_insts(l1, l2),
        Op::Select => select_insts(l1, l2),
        Op::Block { .. } => seq![Inst::Comment { op }],
        Op::Loop { .. } => seq![Inst::Comment { op }, Inst::LabelDef { label: l1 }],
        Op::Br { relative_depth } => br_insts(
            relative_depth,
            fl.targets[fl.targets.len() - 1 - relative_depth],
        ),
        Op::BrIf { relative_depth } => br_if_insts(
            relative_depth,
            fl.targets[fl.targets.len() - 1 - relative_depth],
        ),
        Op::Call { function_index } => call_insts(
            funcs[function_index as int].func_type.params@.len(),
            funcs[function_index as int].body.locals as nat,
            funcs[function_index as int].func_type.results@.len() > 0,
            function_index,
        ),
        Op::Return => ret_insts(fres),
        Op::End => if fl.closers.len() > 0 {
            match fl.closers.last() {
                Some(l) => seq![Inst::LabelDef { label: l }],
                None => seq![],
            }
        } else {
            seq![]
        },
        Op::Unsupported => seq![],
    }
}

/// The translation state (emitted output and control-flow state) after
/// the first `i` operators of a body.
pub struct FnState {
    pub out: Seq<Inst>,
    pub fl: Flow,
}

pub open spec fn st_after(
    ops: Seq<Op>,
    i: int,
    total: usize,
    funcs: Seq<FunctionDef>,
    fres: bool,
    base: nat,
) -> FnState
    decreases i,
{
    if i <= 0 {
        FnState { out: seq![], fl: init_flow(base) }
    } else {
        let prev = st_after(ops, i - 1, total, funcs, fres, base);
        FnState {
            out: prev.out + op_emit(ops[i - 1], total, funcs, fres, prev.fl),
            fl: op_flow(ops[i - 1], prev.fl),
        }
    }
}

/// The first per-operator error at or after position `i`, with `depth`
/// constructs open there, or `None` if every remaining operator is
/// acceptable.
pub open spec fn ops_err(
    ops: Seq<Op>,
    i: int,
    total: nat,
    nfuncs: nat,
    fi: usize,
    depth: nat,
) -> Option<CompileError>
    decreases ops.len() - i,
{
    if i < 0 || i >= ops.len() {
        None
    } else if !op_ok(ops[i], total, nfuncs, depth) {
        Some(op_err(ops[i], fi, i as usize))
    } else {
        ops_err(ops, i + 1, total, nfuncs, fi, op_depth(ops[i], depth))
    }
}

/// A function's parameter + local slot count.
pub open spec fn fn_total(f: FunctionDef) -> nat {
    (f.func_type.params@.len() + f.body.locals) as nat
}

pub open spec fn fn_has_result(f: FunctionDef) -> bool {
    f.func_type.results@.len() == 1
}

/// Every declared parameter and result kind is a 32-bit integer.
pub open spec fn sig_kinds_ok(s: FuncSig) -> bool {
    (forall|j: int| 0 <= j < s.params@.len() ==> s.params@[j] == ValKind::I32) && (forall|j: int|
        0 <= j < s.results@.len() ==> s.results@[j] == ValKind::I32)
}

/// The first error of function `fi`, or `None` if it compiles: result
/// arity, value kinds and frame size are checked first, then each
/// operator in order.
pub open spec fn func_err(f: FunctionDef, fi: usize, nfuncs: nat) -> Option<CompileError> {
    if f.func_type.results@.len() > 1 {
        Some(CompileError::MultipleResults { function: fi })
    } else if !sig_kinds_ok(f.func_type) {
        Some(CompileError::UnsupportedValueKind { function: fi })
    } else if !frame_fits(fn_total(f)) {
        Some(CompileError::FrameTooLarge { function: fi })
    } else {
        ops_err(f.body.ops@, 0, fn_total(f), nfuncs, fi, 0)
    }
}

/// The body of one compiled function: capture the frame pointer, then
/// the translated operators, then the shared return sequence.
pub open spec fn func_insts(f: FunctionDef, funcs: Seq<FunctionDef>, base: nat) -> Seq<Inst> {
    seq![
        Inst::Ld16Imm { dst: Reg16::IY, imm: 0 },
        Inst::AddIdx { dst: IdxReg::IY, src: Reg16::SP },
    ] + st_after(
        f.body.ops@,
        f.body.ops@.len() as int,
        fn_total(f) as usize,
        funcs,
        fn_has_result(f),
        base,
    ).out + ret_insts(fn_has_result(f))
}

/// The label counter after translating one function that started at
/// `base`.
pub open spec fn func_next(f: FunctionDef, funcs: Seq<FunctionDef>, base: nat) -> nat {
    st_after(
        f.body.ops@,
        f.body.ops@.len() as int,
        fn_total(f) as usize,
        funcs,
        fn_has_result(f),
        base,
    ).fl.next
}

/// Total operator count of the first `i` functions.
pub open spec fn prefix_ops(funcs: Seq<FunctionDef>, i: int) -> nat
    decreases i,
{
    if i <= 0 {
        0
    } else {
        prefix_ops(funcs, i - 1) + funcs[i - 1].body.ops@.len()
    }
}

/// Label counter after the first `i` functions.
pub open spec fn funcs_next(funcs: Seq<FunctionDef>, i: int) -> nat
    decreases i,
{
    if i <= 0 {
        0
    } else {
        func_next(funcs[i - 1], funcs, funcs_next(funcs, i - 1))
    }
}

/// Emitted output of the first `i` functions, each preceded by its
/// `func_<n>:` label.
pub open spec fn funcs_out(funcs: Seq<FunctionDef>, i: int) -> Seq<Inst>
    decreases i,
{
    if i <= 0 {
        seq![]
    } else {
        funcs_out(funcs, i - 1) + seq![Inst::FuncLabel { func: (i - 1) as usize }] + func_insts(
            funcs[i - 1],
            funcs,
            funcs_next(funcs, i - 1),
        )
    }
}

/// First error among functions `i..`, in function order.
pub open spec fn funcs_err(funcs: Seq<FunctionDef>, i: int) -> Option<CompileError>
    decreases funcs.len() - i,
{
    if i < 0 || i >= funcs.len() {
        None
    } else if func_err(funcs[i], i as usize, funcs.len()) is Some {
        func_err(funcs[i], i as usize, funcs.len())
    } else {
        funcs_err(funcs, i + 1)
    }
}

/// The synthesized outer harness: initialize the stack pointer, invoke
/// the entry function by the shared calling convention, halt.
pub open spec fn entry_call(m: Module) -> Seq<Inst> {
    let f = m.functions@[m.entry as int];
    seq![Inst::Ld16Imm { dst: Reg16::SP, imm: 0xFFE8 }] + call_insts(
        f.func_type.params@.len(),
        f.body.locals as nat,
        f.func_type.results@.len() > 0,
        m.entry,
    ) + seq![Inst::Halt]
}

/// The complete output of a successful compilation: the harness, then
/// every function in index order.
pub open spec fn module_insts(m: Module) -> Seq<Inst> {
    entry_call(m) + funcs_out(m.functions@, m.functions@.len() as int)
}

/// The error a compilation reports, or `None` if it succeeds: the entry
/// index and its parameter count are checked first, then the label
/// capacity, then each function in order.
pub open spec fn module_err(m: Module) -> Option<CompileError> {
    if m.entry >= m.functions@.len() {
        Some(CompileError::EntryOutOfRange)
    } else if m.functions@[m.entry as int].func_type.params@.len() != 0 {
        Some(CompileError::EntryTakesParams)
    } else if 2 * prefix_ops(m.functions@, m.functions@.len() as int) > usize::MAX {
        Some(CompileError::ProgramTooLarge)
    } else {
        funcs_err(m.functions@, 0)
    }
}

/// Each operator consumes at most two labels, so the counter grows by
/// at most `2 * i` over `i` operators.
pub proof fn lemma_st_next_bound(
    ops: Seq<Op>,
    i: int,
    total: usize,
    funcs: Seq<FunctionDef>,
    fres: bool,
    base: nat,
)
    requires
        0 <= i <= ops.len(),
    ensures
        base <= st_after(ops, i, total, funcs, fres, base).fl.next <= base + 2 * i,
    decreases i,
{
    if i > 0 {
        lemma_st_next_bound(ops, i - 1, total, funcs, fres, base);
    }
}

/// Operator-count prefixes grow monotonically.
pub proof fn lemma_prefix_ops_mono(funcs: Seq<FunctionDef>, i: int, j: int)
    requires
        0 <= i <= j,
    ensures
        prefix_ops(funcs, i) <= prefix_ops(funcs, j),
    decreases j,
{
    if j > i {
        lemma_prefix_ops_mono(funcs, i, j - 1);
    }
}

/// The label counter after `i` functions is bounded by twice their
/// total operator count.
pub proof fn lemma_funcs_next_bound(funcs: Seq<FunctionDef>, i: int)
    requires
        0 <= i,
    ensures
        funcs_next(funcs, i) <= 2 * prefix_ops(funcs, i),
    decreases i,
{
    if i > 0 {
        lemma_funcs_next_bound(funcs, i - 1);
        let f = funcs[i - 1];
        lemma_st_next_bound(
            f.body.ops@,
            f.body.ops@.len() as int,
            fn_total(f) as usize,
            funcs,
            fn_has_result(f),
            funcs_next(funcs, i - 1),
        );
    }
}

/// The calling convention is one shared sequence: the synthesized outer
/// entry invocation embeds, between its stack-pointer setup and its
/// final halt, exactly what a `call` operator naming the entry function
/// would emit.
pub proof fn lemma_calling_convention_shared(
    m: Module,
    total: usize,
    fres: bool,
    fl: Flow,
)
    requires
        m.entry < m.functions@.len(),
    ensures
        entry_call(m).subrange(1, entry_call(m).len() - 1) == op_emit(
            Op::Call { function_index: m.entry },
            total,
            m.functions@,
            fres,
            fl,
        ),
{
    let f = m.functions@[m.entry as int];
    let c = call_insts(
        f.func_type.params@.len(),
        f.body.locals as nat,
        f.func_type.results@.len() > 0,
        m.entry,
    );
    assert(entry_call(m).subrange(1, entry_call(m).len() - 1) =~= c);
}

/// Translate one function's body, appending to `out`. On success the
/// appended records are exactly `func_insts` and the label counter
/// advances to exactly `func_next`; on failure the result is exactly
/// the function's first error (the caller discards the partial output).
#[verifier::loop_isolation(false)]
pub fn compile_function(
    functions: &Vec<FunctionDef>,
    fi: usize,
    labeler: &mut Labeler,
    out: &mut Vec<Inst>,
) -> (res: Result<(), CompileError>)
    requires
        fi < functions@.len(),
        old(labeler).issued() + 2 * functions@[fi as int].body.ops@.len() <= usize::MAX,
    ensures
        res is Ok <==> func_err(functions@[fi as int], fi, functions@.len()) is None,
        res matches Err(e) ==> func_err(functions@[fi as int], fi, functions@.len()) == Some(e),
        res is Ok ==> final(out)@ == old(out)@ + func_insts(
            functions@[fi as int],
            functions@,
            old(labeler).issued(),
        ),
        res is Ok ==> final(labeler).issued() == func_next(
            functions@[fi as int],
            functions@,
            old(labeler).issued(),
        ),
{
    let ghost fspec = functions@[fi as int];
    let f = &functions[fi];
    if f.func_type.results.len() > 1 {
        return Err(CompileError::MultipleResults { function: fi });
    }
    let mut j: usize = 0;
    while j < f.func_type.params.len()
        invariant
            fi < functions@.len(),
            fspec == functions@[fi as int],
            j <= fspec.func_type.params@.len(),
            forall|k: int| 0 <= k < j ==> fspec.func_type.params@[k] == ValKind::I32,
        decreases fspec.func_type.params@.len() - j,
    {
        match f.func_type.params[j] {
            ValKind::I32 => {},
            ValKind::Other => {
                return Err(CompileError::UnsupportedValueKind { function: fi });
            },
        }
        j = j + 1;
    }
    let mut j2: usize = 0;
    while j2 < f.func_type.results.len()
        invariant
            fi < functions@.len(),
            fspec == functions@[fi as int],
            j2 <= fspec.func_type.results@.len(),
            forall|k: int| 0 <= k < j2 ==> fspec.func_type.results@[k] == ValKind::I32,
        decreases fspec.func_type.results@.len() - j2,
    {
        match f.func_type.results[j2] {
            ValKind::I32 => {},
            ValKind::Other => {
                return Err(CompileError::UnsupportedValueKind { function: fi });
            },
        }
        j2 = j2 + 1;
    }
    if !frame_check(f.func_type.params.len(), f.body.locals) {
        return Err(CompileError::FrameTooLarge { function: fi });
    }
    let total = f.func_type.params.len() + f.body.locals;
    let has_result = f.func_type.results.len() == 1;
    out.push(Inst::Ld16Imm { dst: Reg16::IY, imm: 0 });
    out.push(Inst::AddIdx { dst: IdxReg::IY, src: Reg16::SP });
    let ghost base = labeler.issued();
    let ghost pre = out@;
    let mut targets: Vec<Label> = Vec::new();
    let mut closers: Vec<Option<Label>> = Vec::new();
    let n = f.body.ops.len();
    let mut i: usize = 0;
    while i < n
        invariant
            i <= n,
            fi < functions@.len(),
            fspec == functions@[fi as int],
            n == fspec.body.ops@.len(),
            base == old(labeler).issued(),
            base + 2 * n <= usize::MAX,
            pre == old(out)@ + seq![
                Inst::Ld16Imm { dst: Reg16::IY, imm: 0 },
                Inst::AddIdx { dst: IdxReg::IY, src: Reg16::SP },
            ],
            fspec.func_type.results@.len() <= 1,
            sig_kinds_ok(fspec.func_type),
            frame_fits(fn_total(fspec)),
            total == fn_total(fspec),
            has_result == fn_has_result(fspec),
            ({
                let st = st_after(fspec.body.ops@, i as int, total, functions@, has_result, base);
                out@ == pre + st.out && targets@ == st.fl.targets && closers@ == st.fl.closers
                    && targets@.len() == closers@.len() && labeler.issued() == st.fl.next
                    && st.fl.next <= base + 2 * i
            }),
            ops_err(fspec.body.ops@, 0, total as nat, functions@.len() as nat, fi, 0) == ops_err(
                fspec.body.ops@,
                i as int,
                total as nat,
                functions@.len() as nat,
                fi,
                targets@.len() as nat,
            ),
        decreases n - i,
    {
        let ghost st = st_after(fspec.body.ops@, i as int, total, functions@, has_result, base);
        let op = f.body.ops[i];
        match op {
            Op::I32Const { value } => {
                emit_const(out, value);
            },
            Op::LocalGet { local_index } => {
                if local_index >= total {
                    return Err(CompileError::LocalOutOfRange { function: fi, index: i });
                }
                emit_local_get(out, total, local_index);
            },
            Op::LocalSet { local_index } => {
                if local_index >= total {
                    return Err(CompileError::LocalOutOfRange { function: fi, index: i });
                }
                emit_local_set(out, total, local_index);
            },
            Op::LocalTee { local_index } => {
                if local_index >= total {
                    return Err(CompileError::LocalOutOfRange { function: fi, index: i });
                }
                emit_local_tee(out, total, local_index);
            },
            Op::GlobalGet { global_index } => {
                if global_index >= MAX_GLOBALS {
                    return Err(CompileError::GlobalOutOfRange { function: fi, index: i });
                }
                emit_global_get(out, global_index);
            },
            Op::GlobalSet { global_index } => {
                if global_index >= MAX_GLOBALS {
                    return Err(CompileError::GlobalOutOfRange { function: fi, index: i });
                }
                emit_global_set(out, global_index);
            },
            Op::I32Store8 { offset } => {
                emit_store8(out, offset);
            },
            Op::I32Store { offset } => {
                emit_store(out, offset);
            },
            Op::I32Load { offset } => {
                emit_load(out, offset);
            },
            Op::I32Load8U { offset } => {
                emit_load8u(out, offset);
            },
            Op::I32Eqz => {
                let l1 = labeler.next();
                let l2 = labeler.next();
                emit_eqz(out, l1, l2);
            },
            Op::I32Add => {
                emit_add(out);
            },
            Op::I32Sub => {
                emit_sub(out);
            },
            Op::I32And => {
                emit_and(out);
            },
            Op::I32GtU => {
                let l1 = labeler.next();
                let l2 = labeler.next();
                emit_gtu(out, l1, l2);
            },
            Op::I32GtS => {
                let l1 = labeler.next();
                let l2 = labeler.next();
                emit_gts(out, l1, l2);
            },
            Op::I32LtU => {
                let l1 = labeler.next();
                let l2 = labeler.next();
                emit_ltu(out, l1, l2);
            },
            Op::I32GeU => {
                let l1 = labeler.next();
                let l2 = labeler.next();
                emit_geu(out, l1, l2);
            },
            Op::I32Ne => {
                let l1 = labeler.next();
                let l2 = labeler.next();
                emit_ne(out, l1, l2);
            },
            Op::Select => {
                let l1 = labeler.next();
                let l2 = labeler.next();
                emit_select(out, l1, l2);
            },
            Op::Block { empty_type } => {
                if !empty_type {
                    return Err(CompileError::NonEmptyBlockType { function: fi, index: i });
                }
                let l = labeler.next();
                out.push(Inst::Comment { op: Op::Block { empty_type } });
                targets.push(l);
                closers.push(Some(l));
            },
            Op::Loop { empty_type } => {
                if !empty_type {
                    return Err(CompileError::NonEmptyBlockType { function: fi, index: i });
                }
                let l = labeler.next();
                out.push(Inst::Comment { op: Op::Loop { empty_type } });
                out.push(Inst::LabelDef { label: l });
                targets.push(l);
                closers.push(None);
            },
            Op::Br { relative_depth } => {
                if relative_depth >= targets.len() {
                    return Err(CompileError::BranchDepthOutOfRange { function: fi, index: i });
                }
                let t = targets[targets.len() - 1 - relative_depth];
                emit_br(out, relative_depth, t);
            },
            Op::BrIf { relative_depth } => {
                if relative_depth >= targets.len() {
                    return Err(CompileError::BranchDepthOutOfRange { function: fi, index: i });
                }
                let t = targets[targets.len() - 1 - relative_depth];
                emit_br_if(out, relative_depth, t);
            },
            Op::Call { function_index } => {
                if function_index >= functions.len() {
                    return Err(CompileError::CallTargetOutOfRange { function: fi, index: i });
                }
                let callee = &functions[function_index];
                emit_call(
                    out,
                    callee.func_type.params.len(),
                    callee.body.locals,
                    callee.func_type.results.len() > 0,
                    function_index,
                );
            },
            Op::Return => {
                emit_ret(out, has_result);
            },
            Op::End => {
                if targets.len() > 0 {
                    let c = closers.pop().unwrap();
                    let _ = targets.pop();
                    match c {
                        Some(l) => {
                            out.push(Inst::LabelDef { label: l });
                        },
                        None => {},
                    }
                }
            },
            Op::Unsupported => {
                return Err(CompileError::UnsupportedOperator { function: fi, index: i });
            },
        }
        i = i + 1;
        proof {
            let stn = st_after(fspec.body.ops@, i as int, total, functions@, has_result, base);
            assert(stn.out == st.out + op_emit(
                fspec.body.ops@[i - 1],
                total,
                functions@,
                has_result,
                st.fl,
            ));
            assert(out@ =~= pre + stn.out);
            assert(targets@ =~= stn.fl.targets);
            assert(closers@ =~= stn.fl.closers);
        }
    }
    emit_ret(out, has_result);
    proof {
        assert(out@ =~= old(out)@ + func_insts(fspec, functions@, base));
    }
    Ok(())
}

impl Module {
    /// Compile the whole module: on success the result is exactly the
    /// record sequence `module_insts` (the outer harness followed by
    /// every function); on failure it is exactly the first error
    /// `module_err`, and no output at all is produced.
    #[verifier::loop_isolation(false)]
    pub fn compile(&self) -> (res: Result<Vec<Inst>, CompileError>)
        ensures
            res is Ok <==> module_err(*self) is None,
            res matches Err(e) ==> module_err(*self) == Some(e),
            res matches Ok(v) ==> v@ == module_insts(*self),
    {
        let nfuncs = self.functions.len();
        if self.entry >= nfuncs {
            return Err(CompileError::EntryOutOfRange);
        }
        let ef = &self.functions[self.entry];
        if ef.func_type.params.len() != 0 {
            return Err(CompileError::EntryTakesParams);
        }
        let half: usize = usize::MAX / 2;
        let mut total: usize = 0;
        let mut i: usize = 0;
        while i < nfuncs
            invariant
                i <= nfuncs,
                total == prefix_ops(self.functions@, i as int),
                total <= half,
            decreases nfuncs - i,
        {
            let l = self.functions[i].body.ops.len();
            if l > half - total {
                proof {
                    lemma_prefix_ops_mono(self.functions@, i + 1, nfuncs as int);
                }
                return Err(CompileError::ProgramTooLarge);
            }
            total = total + l;
            i = i + 1;
        }
        let mut labeler = Labeler::new();
        let mut out: Vec<Inst> = Vec::new();
        out.push(Inst::Ld16Imm { dst: Reg16::SP, imm: 0xFFE8 });
        emit_call(
            &mut out,
            ef.func_type.params.len(),
            ef.body.locals,
            ef.func_type.results.len() > 0,
            self.entry,
        );
        out.push(Inst::Halt);
        proof {
            assert(out@ =~= entry_call(*self));
        }
        let mut k: usize = 0;
        while k < nfuncs
            invariant
                k <= nfuncs,
                2 * prefix_ops(self.functions@, nfuncs as int) <= usize::MAX,
                out@ == entry_call(*self) + funcs_out(self.functions@, k as int),
                labeler.issued() == funcs_next(self.functions@, k as int),
                funcs_err(self.functions@, 0) == funcs_err(self.functions@, k as int),
            decreases nfuncs - k,
        {
            out.push(Inst::FuncLabel { func: k });
            proof {
                lemma_funcs_next_bound(self.functions@, k as int);
                lemma_prefix_ops_mono(self.functions@, k + 1, nfuncs as int);
            }
            match compile_function(&self.functions, k, &mut labeler, &mut out) {
                Ok(()) => {},
                Err(e) => {
                    return Err(e);
                },
            }
            k = k + 1;
            proof {
                assert(out@ =~= entry_call(*self) + funcs_out(self.functions@, k as int));
            }
        }
        Ok(out)
    }
}

/// Number of `Some(l)` entries on a closer stack: pending definitions
/// owed for label `l` at the matching `end`s.
pub open spec fn closer_count(cl: Seq<Option<Label>>, l: Label) -> nat
    decreases cl.len(),
{
    if cl.len() == 0 {
        0
    } else {
        closer_count(cl.drop_last(), l) + if cl.last() == Some(l) {
            1nat
        } else {
            0nat
        }
    }
}

/// How many definitions of `l` one operator's emission contains: a loop
/// defines its own label, the internally-branching operators define
/// their two fresh labels, and an `end` defines the pending block label
/// it closes, if any.
pub open spec fn op_def_count(op: Op, fl: Flow, l: Label) -> nat {
    let l1 = Label(fl.next as usize);
    let l2 = Label((fl.next + 1) as usize);
    match op {
        Op::Loop { .. } => if l == l1 {
            1nat
        } else {
            0nat
        },
        Op::I32Eqz => pair_count(l1, l2, l),
        Op::I32GtU => pair_count(l1, l2, l),
        Op::I32GtS => pair_count(l1, l2, l),
        Op::I32LtU => pair_count(l1, l2, l),
        Op::I32GeU => pair_count(l1, l2, l),
        Op::I32Ne => pair_count(l1, l2, l),
        Op::Select => pair_count(l1, l2, l),
        Op::End => if fl.closers.len() > 0 && fl.closers.last() == Some(l) {
            1nat
        } else {
            0nat
        },
        _ => 0nat,
    }
}

proof fn lemma_op_emit_def_count(
    op: Op,
    total: usize,
    funcs: Seq<FunctionDef>,
    fres: bool,
    fl: Flow,
    l: Label,
)
    ensures
        def_count(op_emit(op, total, funcs, fres, fl), l) == op_def_count(op, fl, l),
{
    let l1 = Label(fl.next as usize);
    let l2 = Label((fl.next + 1) as usize);
    match op {
        Op::I32Const { value } => lemma_const_def_count(value, l),
        Op::LocalGet { local_index } => lemma_local_get_def_count(total, local_index, l),
        Op::LocalSet { local_index } => lemma_local_set_def_count(total, local_index, l),
        Op::LocalTee { local_index } => lemma_local_tee_def_count(total, local_index, l),
        Op::GlobalGet { global_index } => lemma_global_get_def_count(global_index, l),
        Op::GlobalSet { global_index } => lemma_global_set_def_count(global_index, l),
        Op::I32Store8 { offset } => lemma_store8_def_count(offset, l),
        Op::I32Store { offset } => lemma_store_def_count(offset, l),
        Op::I32Load { offset } => lemma_load_def_count(offset, l),
        Op::I32Load8U { offset } => lemma_load8u_def_count(offset, l),
        Op::I32Eqz => lemma_eqz_def_count(l1, l2, l),
        Op::I32Add => lemma_add_def_count(l),
        Op::I32Sub => lemma_sub_def_count(l),
        Op::I32And => lemma_and_def_count(l),
        Op::I32GtU => lemma_gtu_def_count(l1, l2, l),
        Op::I32GtS => lemma_gts_def_count(l1, l2, l),
        Op::I32LtU => lemma_ltu_def_count(l1, l2, l),
        Op::I32GeU => lemma_geu_def_count(l1, l2, l),
        Op::I32Ne => lemma_ne_def_count(l1, l2, l),
        Op::Select => lemma_select_def_count(l1, l2, l),
        Op::Block { .. } => {
            assert(def_count(seq![Inst::Comment { op }], l) == 0) by {
                reveal_with_fuel(def_count, 3);
            }
        },
        Op::Loop { .. } => {
            assert(def_count(seq![Inst::Comment { op }, Inst::LabelDef { label: l1 }], l)
                == op_def_count(op, fl, l)) by {
                reveal_with_fuel(def_count, 4);
            }
        },
        Op::Br { relative_depth } => lemma_br_def_count(
            relative_depth,
            fl.targets[fl.targets.len() - 1 - relative_depth],
            l,
        ),
        Op::BrIf { relative_depth } => lemma_br_if_def_count(
            relative_depth,
            fl.targets[fl.targets.len() - 1 - relative_depth],
            l,
        ),
        Op::Call { function_index } => lemma_call_def_count(
            funcs[function_index as int].func_type.params@.len(),
            funcs[function_index as int].body.locals as nat,
            funcs[function_index as int].func_type.results@.len() > 0,
            function_index,
            l,
        ),
        Op::Return => lemma_ret_def_count(fres, l),
        Op::End => {
            assert(def_count(op_emit(op, total, funcs, fres, fl), l) == op_def_count(op, fl, l))
                by {
                reveal_with_fuel(def_count, 3);
            }
        },
        Op::Unsupported => {
            assert(def_count(Seq::<Inst>::empty(), l) == 0) by {
                reveal_with_fuel(def_count, 2);
            }
        },
    }
}

/// Through the scan of one body, each label is defined at most once,
/// counting a pending closer entry as its one future definition, and
/// every label defined or pending lies below the label counter.
proof fn lemma_st_defs(
    ops: Seq<Op>,
    i: int,
    total: usize,
    funcs: Seq<FunctionDef>,
    fres: bool,
    base: nat,
    l: Label,
)
    requires
        0 <= i <= ops.len(),
        base + 2 * ops.len() <= usize::MAX,
    ensures
        ({
            let st = st_after(ops, i, total, funcs, fres, base);
            st.fl.targets.len() == st.fl.closers.len() && def_count(st.out, l) + closer_count(
                st.fl.closers,
                l,
            ) <= 1 && ((def_count(st.out, l) > 0 || closer_count(st.fl.closers, l) > 0) ==> base
                <= l.0 < st.fl.next)
        }),
    decreases i,
{
    if i > 0 {
        lemma_st_defs(ops, i - 1, total, funcs, fres, base, l);
        lemma_st_next_bound(ops, i - 1, total, funcs, fres, base);
        let prev = st_after(ops, i - 1, total, funcs, fres, base);
        lemma_op_emit_def_count(ops[i - 1], total, funcs, fres, prev.fl, l);
        lemma_def_count_add(prev.out, op_emit(ops[i - 1], total, funcs, fres, prev.fl), l);
        assert(base <= prev.fl.next <= base + 2 * (i - 1));
        let fresh1 = Label(prev.fl.next as usize);
        match ops[i - 1] {
            Op::Block { .. } => {
                let x = Some(fresh1);
                assert(prev.fl.closers.push(x).drop_last() =~= prev.fl.closers);
                assert(prev.fl.closers.push(x).last() == x);
            },
            Op::Loop { .. } => {
                let x = Option::<Label>::None;
                assert(prev.fl.closers.push(x).drop_last() =~= prev.fl.closers);
                assert(prev.fl.closers.push(x).last() == x);
            },
            _ => {},
        }
    }
}

/// One compiled function defines each label at most once, and only
/// labels allocated during its own translation.
proof fn lemma_func_insts_def_count(f: FunctionDef, funcs: Seq<FunctionDef>, base: nat, l: Label)
    requires
        base + 2 * f.body.ops@.len() <= usize::MAX,
    ensures
        def_count(func_insts(f, funcs, base), l) <= 1,
        def_count(func_insts(f, funcs, base), l) > 0 ==> base <= l.0 < func_next(f, funcs, base),
{
    let pro = seq![
        Inst::Ld16Imm { dst: Reg16::IY, imm: 0 },
        Inst::AddIdx { dst: IdxReg::IY, src: Reg16::SP },
    ];
    let ops = f.body.ops@;
    let st = st_after(ops, ops.len() as int, fn_total(f) as usize, funcs, fn_has_result(f), base);
    assert(def_count(pro, l) == 0) by {
        reveal_with_fuel(def_count, 4);
    }
    lemma_st_defs(ops, ops.len() as int, fn_total(f) as usize, funcs, fn_has_result(f), base, l);
    lemma_ret_def_count(fn_has_result(f), l);
    lemma_def_count_add(pro, st.out, l);
    lemma_def_count_add(pro + st.out, ret_insts(fn_has_result(f)), l);
}

/// The first `i` functions together define each label at most once:
/// their label ranges are disjoint because the counter only grows.
proof fn lemma_funcs_out_def_count(funcs: Seq<FunctionDef>, i: int, l: Label)
    requires
        0 <= i <= funcs.len(),
        2 * prefix_ops(funcs, funcs.len() as int) <= usize::MAX,
    ensures
        def_count(funcs_out(funcs, i), l) <= 1,
        def_count(funcs_out(funcs, i), l) > 0 ==> l.0 < funcs_next(funcs, i),
    decreases i,
{
    if i > 0 {
        lemma_funcs_out_def_count(funcs, i - 1, l);
        let f = funcs[i - 1];
        let base = funcs_next(funcs, i - 1);
        lemma_funcs_next_bound(funcs, i - 1);
        lemma_prefix_ops_mono(funcs, i, funcs.len() as int);
        lemma_func_insts_def_count(f, funcs, base, l);
        lemma_st_next_bound(
            f.body.ops@,
            f.body.ops@.len() as int,
            fn_total(f) as usize,
            funcs,
            fn_has_result(f),
            base,
        );
        let fl_chunk = seq![Inst::FuncLabel { func: (i - 1) as usize }];
        assert(def_count(fl_chunk, l) == 0) by {
            reveal_with_fuel(def_count, 3);
        }
        lemma_def_count_add(funcs_out(funcs, i - 1), fl_chunk, l);
        lemma_def_count_add(funcs_out(funcs, i - 1) + fl_chunk, func_insts(f, funcs, base), l);
    }
}

/// Labels are unique within one compilation run: the output of a
/// successful compilation contains at most one `label_<n>:` definition
/// for any label, so every jump target is unambiguous.
pub proof fn lemma_labels_unique(m: Module, l: Label)
    requires
        module_err(m) is None,
    ensures
        def_count(module_insts(m), l) <= 1,
{
    let funcs = m.functions@;
    let f = funcs[m.entry as int];
    lemma_funcs_out_def_count(funcs, funcs.len() as int, l);
    lemma_call_def_count(
        f.func_type.params@.len(),
        f.body.locals as nat,
        f.func_type.results@.len() > 0,
        m.entry,
        l,
    );
    let head = seq![Inst::Ld16Imm { dst: Reg16::SP, imm: 0xFFE8 }];
    let tail = seq![Inst::Halt];
    let call = call_insts(
        f.func_type.params@.len(),
        f.body.locals as nat,
        f.func_type.results@.len() > 0,
        m.entry,
    );
    assert(def_count(head, l) == 0 && def_count(tail, l) == 0) by {
        reveal_with_fuel(def_count, 3);
    }
    lemma_def_count_add(head, call, l);
    lemma_def_count_add(head + call, tail, l);
    lemma_def_count_add(entry_call(m), funcs_out(funcs, funcs.len() as int), l);
}

} // verus!
