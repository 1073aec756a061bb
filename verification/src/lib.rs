//! A single-pass compiler from a small stack-machine module format to
//! textual assembly for an 8/16-bit register CPU with a 16-bit address
//! space. 32-bit values are emulated as pairs of 16-bit limbs on the
//! hardware stack; structured control flow is resolved to flat labels.

pub mod ast;
pub mod builder;
pub mod compile;
pub mod emit;
pub mod frame;
pub mod inst;
pub mod label;
pub mod limbs;
pub mod render;

pub use ast::{Body, CompileError, FuncSig, FunctionDef, Module, Op, ValKind};
pub use builder::{Export, ModuleBuilder};
pub use inst::{Cond, IdxReg, Inst, Reg16, Reg8};
pub use label::{Label, Labeler};
