//! Arithmetic applied to an instruction sequence that leaves a value in the
//! accumulator.

use super::emittable::{Emittable, Node, lower};
use crate::gb_asm::{Asm, Instr, InstrV, Operand, OperandV, Register};
use vstd::prelude::*;

verus! {

/// An instruction sequence with an arithmetic step applied.
pub struct Op(pub Vec<Instr>);

impl Emittable for Op {
    open spec fn node(self) -> Node {
        Node::Op(self)
    }

    fn into_node(self) -> (n: Node) {
        Node::Op(self)
    }

    fn emit(self, counter: &mut usize) -> (out: Vec<Instr>) {
        lower(Node::Op(self), counter)
    }
}

/// The instruction that adds a constant to the accumulator.
pub open spec fn add_to_a(value: u8) -> InstrV {
    InstrV::Add { dst: OperandV::Reg(Register::A), src: OperandV::Imm(value) }
}

/// The instruction that subtracts a constant from the accumulator.
pub open spec fn sub_from_a(value: u8) -> InstrV {
    InstrV::Sub { dst: OperandV::Reg(Register::A), src: OperandV::Imm(value) }
}

/// Arithmetic on the value that an instruction sequence leaves in the
/// accumulator.
pub trait InstrOps: Sized {
    /// The instructions that the value stands for.
    spec fn code(self) -> Seq<InstrV>;

    /// The sequence followed by the addition of `value`.
    fn plus(self, value: u8) -> (r: Op)
        ensures
            r.0.deep_view() == self.code().push(add_to_a(value)),
    ;

    /// The sequence followed by the subtraction of `value`.
    fn minus(self, value: u8) -> (r: Op)
        ensures
            r.0.deep_view() == self.code().push(sub_from_a(value)),
    ;
}

impl InstrOps for Vec<Instr> {
    open spec fn code(self) -> Seq<InstrV> {
        self.deep_view()
    }

    fn plus(self, value: u8) -> (r: Op) {
        let mut a = Asm::new();
        a.emit_all(self);
        a.add(Operand::Reg(Register::A), Operand::Imm(value));
        Op(a.get_main_instrs())
    }

    fn minus(self, value: u8) -> (r: Op) {
        let mut a = Asm::new();
        a.emit_all(self);
        a.sub(Operand::Reg(Register::A), Operand::Imm(value));
        Op(a.get_main_instrs())
    }
}

} // verus!
