//! The in-memory module format the compiler consumes: an ordered list of
//! functions, each with a type signature and a body (a count of declared
//! 32-bit locals and an operator sequence), plus the index of the entry
//! function.

use vstd::prelude::*;

verus! {

/// The kind of a parameter or result value. Only 32-bit integers are
/// supported; anything else is carried as `Other` and rejected during
/// compilation.
#[derive(Clone, Copy, PartialEq, Eq, Structural, Debug)]
pub enum ValKind {
    I32,
    Other,
}

/// A function type: ordered parameter kinds and result kinds. More than
/// one result is rejected during compilation.
#[derive(Debug)]
pub struct FuncSig {
    pub params: Vec<ValKind>,
    pub results: Vec<ValKind>,
}

/// One operator of a function body. The set is closed: every supported
/// instruction has a tag, and everything else arrives as `Unsupported`,
/// which fails compilation rather than miscompiling silently.
#[derive(Clone, Copy, PartialEq, Eq, Structural, Debug)]
pub enum Op {
    /// Push a 32-bit constant (given by its bit pattern).
    I32Const { value: u32 },
    LocalGet { local_index: usize },
    LocalSet { local_index: usize },
    LocalTee { local_index: usize },
    GlobalGet { global_index: usize },
    GlobalSet { global_index: usize },
    /// Store the low byte of a 32-bit value at address + offset.
    I32Store8 { offset: u16 },
    /// Store a 32-bit value (4 bytes) at address + offset.
    I32Store { offset: u16 },
    /// Load a 32-bit value (4 bytes) from address + offset.
    I32Load { offset: u16 },
    /// Load one byte from address + offset, zero-extended to 32 bits.
    I32Load8U { offset: u16 },
    I32Eqz,
    I32Add,
    I32Sub,
    I32And,
    I32GtU,
    I32GtS,
    I32LtU,
    I32GeU,
    I32Ne,
    Select,
    /// A forward-exit structured region. `empty_type` records whether the
    /// region was declared without parameters or results; anything else is
    /// rejected.
    Block { empty_type: bool },
    /// A backward-entry structured region.
    Loop { empty_type: bool },
    Br { relative_depth: usize },
    BrIf { relative_depth: usize },
    Call { function_index: usize },
    Return,
    End,
    /// Any operator outside the supported subset.
    Unsupported,
}

/// A function body: the count of declared locals (all 32-bit) and the
/// operator sequence.
#[derive(Debug)]
pub struct Body {
    pub locals: usize,
    pub ops: Vec<Op>,
}

/// A function: its signature and its body.
#[derive(Debug)]
pub struct FunctionDef {
    pub func_type: FuncSig,
    pub body: Body,
}

/// A whole program: the functions in index order and the index of the
/// designated entry function.
#[derive(Debug)]
pub struct Module {
    pub entry: usize,
    pub functions: Vec<FunctionDef>,
}

/// Everything that makes a module impossible to compile. All of these
/// abort the whole compilation; there is no partial output.
#[derive(Clone, Copy, PartialEq, Eq, Structural, Debug)]
pub enum CompileError {
    /// No function export named `entry` was declared.
    MissingEntry,
    /// The entry index does not name a function of the module.
    EntryOutOfRange,
    /// The entry function declares parameters; the synthesized outer
    /// invocation cannot supply arguments.
    EntryTakesParams,
    /// The program is too large for the label allocator's index space.
    ProgramTooLarge,
    /// A function declares more than one result.
    MultipleResults { function: usize },
    /// A parameter or result is not a 32-bit integer.
    UnsupportedValueKind { function: usize },
    /// The function's parameters and locals do not fit the 8-bit signed
    /// displacement window of frame-relative addressing.
    FrameTooLarge { function: usize },
    /// The operator at this position is outside the supported subset.
    UnsupportedOperator { function: usize, index: usize },
    /// A block or loop declares parameter or result types.
    NonEmptyBlockType { function: usize, index: usize },
    /// A local index at or beyond the function's parameter + local count.
    LocalOutOfRange { function: usize, index: usize },
    /// A global index beyond the fixed reserved table.
    GlobalOutOfRange { function: usize, index: usize },
    /// A branch whose relative depth exceeds the open construct count.
    BranchDepthOutOfRange { function: usize, index: usize },
    /// A call to a function index the module does not define.
    CallTargetOutOfRange { function: usize, index: usize },
    /// A function-section entry names a type the type section lacks.
    TypeIndexOutOfRange { index: usize },
    /// More code-section bodies than declared functions.
    CodeWithoutDeclaration,
}

} // verus!
