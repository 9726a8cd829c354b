//! The assembly builder and its instruction model.

pub mod builder;
mod codegen;
pub mod instr;

pub use builder::{Asm, AsmV, Chunk};
pub use instr::{
    Condition, Instr, InstrV, JumpTarget, JumpTargetV, Operand, OperandV, Register, clone_instrs,
};
