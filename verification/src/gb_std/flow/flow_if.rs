//! Conditional blocks and their lowering to flag-testing jumps.
//!
//! After a compare the CPU offers two flags, zero and carry. Four of the six
//! comparisons are one flag test each, and their block skips its then-branch
//! with one jump on the opposite test. The other two need both flags: "less
//! than or equal" holds when carry or zero is set, "greater than" when
//! neither is, and their blocks test the two flags one after the other.

use super::emittable::{Emittable, Node, lower};
use super::labels::{LabelRole, else_label, end_label, make_label, then_label};
use crate::gb_asm::{
    Asm, Condition, Instr, InstrV, JumpTarget, JumpTargetV, Operand, OperandV, Register,
};
use vstd::prelude::*;
use vstd::string::StringExecFns;

verus! {

/// A comparison of two unsigned 8-bit values.
#[derive(Clone, Copy, Debug, PartialEq, Eq, Structural)]
pub enum ComparisonOp {
    /// Equal.
    E,
    /// Not equal.
    NE,
    /// Less than.
    LT,
    /// Greater than or equal.
    GE,
    /// Less than or equal.
    LE,
    /// Greater than.
    GT,
}

/// Compares two computed values.
///
/// The block lowers to: the left operand's instructions, a copy of the
/// accumulator into `b`, the right operand's instructions, a compare of the
/// accumulator with `b`, and the branches.
pub struct If {
    /// Leaves the left value in the accumulator.
    pub left: Node,
    /// Leaves the right value in the accumulator.
    pub right: Node,
    pub op: ComparisonOp,
    pub then_branch: Node,
    pub else_branch: Option<Node>,
}

/// Compares a computed value with a named constant.
pub struct IfConst {
    /// Leaves the value in the accumulator.
    pub value: Node,
    pub const_label: String,
    pub op: ComparisonOp,
    pub then_branch: Node,
    pub else_branch: Option<Node>,
}

/// Compares the accumulator, which is already loaded, with a named constant.
pub struct IfA {
    pub const_label: String,
    pub op: ComparisonOp,
    pub then_branch: Node,
    pub else_branch: Option<Node>,
}

/// Branches on a flag that a routine returns.
pub struct IfCall {
    /// Runs before the call.
    pub setup: Option<Node>,
    pub func_name: String,
    /// The flag test on which the then-branch is taken.
    pub condition: Condition,
    pub then_branch: Node,
    pub else_branch: Option<Node>,
}

/// A jump to `label` that is taken when `condition` holds.
pub open spec fn jump_if(condition: Condition, label: Seq<char>) -> InstrV {
    InstrV::JpCond { condition, target: JumpTargetV::Label(label) }
}

/// A jump to `label`.
pub open spec fn jump_to(label: Seq<char>) -> InstrV {
    InstrV::Jp { target: JumpTargetV::Label(label) }
}

/// The definition of the label `name`.
pub open spec fn label_def(name: Seq<char>) -> InstrV {
    InstrV::Label { name }
}

/// The copy of the accumulator into the scratch register `b`.
pub open spec fn save_left() -> InstrV {
    InstrV::Ld { dst: OperandV::Reg(Register::B), src: OperandV::Reg(Register::A) }
}

/// The compare of the accumulator with the scratch register `b`.
pub open spec fn compare_saved() -> InstrV {
    InstrV::Cp { operand: OperandV::Reg(Register::B) }
}

/// The compare of the accumulator with a named constant.
pub open spec fn compare_const(label: Seq<char>) -> InstrV {
    InstrV::Cp { operand: OperandV::Label(label) }
}

/// The jumps of a one-flag test: the then-branch is skipped when `skip`
/// holds.
pub open spec fn simple_head(skip: Condition, target: Seq<char>) -> Seq<InstrV> {
    seq![jump_if(skip, target)]
}

/// The jumps of "less than or equal": to the then-branch when carry is set,
/// to the then-branch when zero is set, and past it otherwise.
pub open spec fn le_head(target: Seq<char>, then_name: Seq<char>) -> Seq<InstrV> {
    seq![
        jump_if(Condition::C, then_name),
        jump_if(Condition::Z, then_name),
        jump_to(target),
        label_def(then_name),
    ]
}

/// The jumps of "greater than": past the then-branch when carry is set, past
/// it when zero is set; the then-branch follows without a label.
pub open spec fn gt_head(target: Seq<char>) -> Seq<InstrV> {
    seq![jump_if(Condition::C, target), jump_if(Condition::Z, target)]
}

/// What stands between the then-branch and the end label: with an
/// else-branch, a jump over it, its label and its instructions.
pub open spec fn else_part(
    end_name: Seq<char>,
    else_name: Seq<char>,
    else_code: Option<Seq<InstrV>>,
) -> Seq<InstrV> {
    match else_code {
        Some(code) => seq![jump_to(end_name), label_def(else_name)] + code,
        None => Seq::<InstrV>::empty(),
    }
}

/// Where control goes when the then-branch is not taken: to the else label
/// if there is an else-branch, to the end label if not.
pub open spec fn skip_target(has_else: bool, n: nat) -> Seq<char> {
    if has_else {
        else_label(n)
    } else {
        end_label(n)
    }
}

impl ComparisonOp {
    /// Whether the comparison holds of two values.
    pub open spec fn holds(self, left: u8, right: u8) -> bool {
        match self {
            ComparisonOp::E => left == right,
            ComparisonOp::NE => left != right,
            ComparisonOp::LT => left < right,
            ComparisonOp::GE => left >= right,
            ComparisonOp::LE => left <= right,
            ComparisonOp::GT => left > right,
        }
    }

    /// Whether the comparison needs both flags.
    pub open spec fn is_compound(self) -> bool {
        self == ComparisonOp::LE || self == ComparisonOp::GT
    }

    /// The flag test that rules the then-branch out. For the four one-flag
    /// comparisons this is the whole test. For the two compound ones it is
    /// the carry test alone, which does not decide them: the zero flag has to
    /// be tested as well.
    pub open spec fn skip_condition(self) -> Condition {
        match self {
            ComparisonOp::E => Condition::NZ,
            ComparisonOp::NE => Condition::Z,
            ComparisonOp::LT => Condition::NC,
            ComparisonOp::GE => Condition::C,
            ComparisonOp::LE => Condition::NC,
            ComparisonOp::GT => Condition::C,
        }
    }

    /// The jumps that follow the compare in the block stamped `n`.
    pub open spec fn head(self, has_else: bool, n: nat) -> Seq<InstrV> {
        match self {
            ComparisonOp::LE => le_head(skip_target(has_else, n), then_label(n)),
            ComparisonOp::GT => gt_head(skip_target(has_else, n)),
            _ => simple_head(self.skip_condition(), skip_target(has_else, n)),
        }
    }

    /// The flag test that rules the then-branch out; see
    /// [`ComparisonOp::skip_condition`].
    pub fn inverted_asm_condition(&self) -> (r: Condition)
        ensures
            r == self.skip_condition(),
    {
        match self {
            ComparisonOp::E => Condition::NZ,
            ComparisonOp::NE => Condition::Z,
            ComparisonOp::LT => Condition::NC,
            ComparisonOp::GE => Condition::C,
            ComparisonOp::LE => Condition::NC,
            ComparisonOp::GT => Condition::C,
        }
    }

    /// Whether the comparison needs two flag tests.
    pub fn needs_special_handling(&self) -> (r: bool)
        ensures
            r == self.is_compound(),
    {
        match self {
            ComparisonOp::LE => true,
            ComparisonOp::GT => true,
            _ => false,
        }
    }

    /// Whether the comparison holds of two values.
    pub fn evaluate(&self, left: u8, right: u8) -> (r: bool)
        ensures
            r == self.holds(left, right),
    {
        match self {
            ComparisonOp::E => left == right,
            ComparisonOp::NE => left != right,
            ComparisonOp::LT => left < right,
            ComparisonOp::GE => left >= right,
            ComparisonOp::LE => left <= right,
            ComparisonOp::GT => left > right,
        }
    }
}

/// The branches of the block stamped `n`, from the first jump to the end
/// label: the jumps `head`, the then-branch, the else part, the end label.
pub open spec fn branch_code(
    head: Seq<InstrV>,
    n: nat,
    then_code: Seq<InstrV>,
    else_code: Option<Seq<InstrV>>,
) -> Seq<InstrV> {
    (head + then_code + else_part(end_label(n), else_label(n), else_code)).push(
        label_def(end_label(n)),
    )
}

/// The instructions of an [`If`] stamped `n`, given those of its parts.
pub open spec fn if_code(
    left: Seq<InstrV>,
    right: Seq<InstrV>,
    op: ComparisonOp,
    n: nat,
    then_code: Seq<InstrV>,
    else_code: Option<Seq<InstrV>>,
) -> Seq<InstrV> {
    (left.push(save_left()) + right).push(compare_saved()) + branch_code(
        op.head(else_code is Some, n),
        n,
        then_code,
        else_code,
    )
}

/// The instructions of an [`IfConst`] stamped `n`, given those of its parts.
pub open spec fn if_const_code(
    value: Seq<InstrV>,
    const_label: Seq<char>,
    op: ComparisonOp,
    n: nat,
    then_code: Seq<InstrV>,
    else_code: Option<Seq<InstrV>>,
) -> Seq<InstrV> {
    value.push(compare_const(const_label)) + branch_code(
        op.head(else_code is Some, n),
        n,
        then_code,
        else_code,
    )
}

/// The instructions of an [`IfA`] stamped `n`, given those of its parts.
pub open spec fn if_a_code(
    const_label: Seq<char>,
    op: ComparisonOp,
    n: nat,
    then_code: Seq<InstrV>,
    else_code: Option<Seq<InstrV>>,
) -> Seq<InstrV> {
    seq![compare_const(const_label)] + branch_code(
        op.head(else_code is Some, n),
        n,
        then_code,
        else_code,
    )
}

/// The instructions of an [`IfCall`] stamped `n`, given those of its parts.
pub open spec fn if_call_code(
    setup: Option<Seq<InstrV>>,
    func_name: Seq<char>,
    condition: Condition,
    n: nat,
    then_code: Seq<InstrV>,
    else_code: Option<Seq<InstrV>>,
) -> Seq<InstrV> {
    (match setup {
        Some(code) => code,
        None => Seq::<InstrV>::empty(),
    }).push(super::emittable::call_instr(func_name)) + branch_code(
        simple_head(condition.negation(), skip_target(else_code is Some, n)),
        n,
        then_code,
        else_code,
    )
}

/// Appends what follows the then-branch, up to the end label. Without an
/// else-branch nothing is appended.
fn emit_else(out: &mut Asm, else_code: Option<Vec<Instr>>, end_name: &str, else_name: &str)
    ensures
        else_code is Some ==> final(out)@ == old(out)@.extend(
            else_part(end_name@, else_name@, else_code.deep_view()),
        ),
        else_code is None ==> final(out)@ == old(out)@,
{
    match else_code {
        Some(code) => {
            let ghost added = code.deep_view();
            out.jp(end_name);
            out.label(else_name);
            out.emit_all(code);
            proof {
                let want = else_part(end_name@, else_name@, Some(added));
                let cur = old(out)@.current;
                assert(out@.content(cur) =~= old(out)@.content(cur) + want);
                assert(out@.chunks =~= old(out)@.extend(want).chunks);
            }
        },
        None => {},
    }
}

/// Appends the branches of a one-flag test: a jump past the then-branch
/// that is taken when `skip` holds, the then-branch, and the else part.
pub fn emit_simple(
    out: &mut Asm,
    skip: Condition,
    then_code: Vec<Instr>,
    else_code: Option<Vec<Instr>>,
    end_name: &str,
    else_name: &str,
)
    ensures
        final(out)@ == old(out)@.extend(
            simple_head(
                skip,
                if else_code is Some {
                    else_name@
                } else {
                    end_name@
                },
            ) + then_code.deep_view() + else_part(end_name@, else_name@, else_code.deep_view()),
        ),
{
    let ghost t = then_code.deep_view();
    let ghost e = else_code.deep_view();
    let ghost cur = old(out)@.current;
    if else_code.is_some() {
        out.jp_cond(skip, else_name);
    } else {
        out.jp_cond(skip, end_name);
    }
    out.emit_all(then_code);
    emit_else(out, else_code, end_name, else_name);
    proof {
        let target = if e is Some {
            else_name@
        } else {
            end_name@
        };
        let want = simple_head(skip, target) + t + else_part(end_name@, else_name@, e);
        assert(out@.content(cur) =~= old(out)@.content(cur) + want);
        assert(out@.chunks =~= old(out)@.extend(want).chunks);
    }
}

/// Appends the branches of "less than or equal": two jumps to the
/// then-branch, on carry and on zero, a jump past it, its label, the
/// then-branch, and the else part.
pub fn emit_le(
    out: &mut Asm,
    then_code: Vec<Instr>,
    else_code: Option<Vec<Instr>>,
    end_name: &str,
    else_name: &str,
    then_name: &str,
)
    ensures
        final(out)@ == old(out)@.extend(
            le_head(
                if else_code is Some {
                    else_name@
                } else {
                    end_name@
                },
                then_name@,
            ) + then_code.deep_view() + else_part(end_name@, else_name@, else_code.deep_view()),
        ),
{
    let ghost t = then_code.deep_view();
    let ghost e = else_code.deep_view();
    let ghost cur = old(out)@.current;
    out.jp_cond(Condition::C, then_name);
    out.jp_cond(Condition::Z, then_name);
    if else_code.is_some() {
        out.jp(else_name);
    } else {
        out.jp(end_name);
    }
    out.label(then_name);
    out.emit_all(then_code);
    emit_else(out, else_code, end_name, else_name);
    proof {
        let target = if e is Some {
            else_name@
        } else {
            end_name@
        };
        let want = le_head(target, then_name@) + t + else_part(end_name@, else_name@, e);
        assert(out@.content(cur) =~= old(out)@.content(cur) + want);
        assert(out@.chunks =~= old(out)@.extend(want).chunks);
    }
}

/// Appends the branches of "greater than": two jumps past the then-branch,
/// on carry and on zero, the then-branch, and the else part.
pub fn emit_gt(
    out: &mut Asm,
    then_code: Vec<Instr>,
    else_code: Option<Vec<Instr>>,
    end_name: &str,
    else_name: &str,
)
    ensures
        final(out)@ == old(out)@.extend(
            gt_head(
                if else_code is Some {
                    else_name@
                } else {
                    end_name@
                },
            ) + then_code.deep_view() + else_part(end_name@, else_name@, else_code.deep_view()),
        ),
{
    let ghost t = then_code.deep_view();
    let ghost e = else_code.deep_view();
    let ghost cur = old(out)@.current;
    if else_code.is_some() {
        out.jp_cond(Condition::C, else_name);
        out.jp_cond(Condition::Z, else_name);
    } else {
        out.jp_cond(Condition::C, end_name);
        out.jp_cond(Condition::Z, end_name);
    }
    out.emit_all(then_code);
    emit_else(out, else_code, end_name, else_name);
    proof {
        let target = if e is Some {
            else_name@
        } else {
            end_name@
        };
        let want = gt_head(target) + t + else_part(end_name@, else_name@, e);
        assert(out@.content(cur) =~= old(out)@.content(cur) + want);
        assert(out@.chunks =~= old(out)@.extend(want).chunks);
    }
}

/// Appends the branches of a comparison in the block stamped `n`, and the
/// end label.
fn emit_branches(
    out: &mut Asm,
    op: ComparisonOp,
    n: usize,
    then_code: Vec<Instr>,
    else_code: Option<Vec<Instr>>,
)
    ensures
        final(out)@ == old(out)@.extend(
            branch_code(
                op.head(else_code is Some, n as nat),
                n as nat,
                then_code.deep_view(),
                else_code.deep_view(),
            ),
        ),
{
    let ghost t = then_code.deep_view();
    let ghost e = else_code.deep_view();
    let end_name = make_label(LabelRole::End, n);
    let else_name = make_label(LabelRole::Else, n);
    let then_name = make_label(LabelRole::Then, n);
    match op {
        ComparisonOp::LE => emit_le(
            out,
            then_code,
            else_code,
            end_name.as_str(),
            else_name.as_str(),
            then_name.as_str(),
        ),
        ComparisonOp::GT => emit_gt(
            out,
            then_code,
            else_code,
            end_name.as_str(),
            else_name.as_str(),
        ),
        _ => emit_simple(
            out,
            op.inverted_asm_condition(),
            then_code,
            else_code,
            end_name.as_str(),
            else_name.as_str(),
        ),
    }
    out.label(end_name.as_str());
    proof {
        let want = branch_code(op.head(e is Some, n as nat), n as nat, t, e);
        assert(out@.chunks =~= old(out)@.extend(want).chunks);
    }
}

/// Puts the parts of an [`If`] stamped `n` together.
pub fn assemble_if(
    left: Vec<Instr>,
    right: Vec<Instr>,
    op: ComparisonOp,
    n: usize,
    then_code: Vec<Instr>,
    else_code: Option<Vec<Instr>>,
) -> (out: Vec<Instr>)
    ensures
        out.deep_view() == if_code(
            left.deep_view(),
            right.deep_view(),
            op,
            n as nat,
            then_code.deep_view(),
            else_code.deep_view(),
        ),
{
    let mut a = Asm::new();
    a.emit_all(left);
    a.ld(Operand::Reg(Register::B), Operand::Reg(Register::A));
    a.emit_all(right);
    a.cp(Operand::Reg(Register::B));
    emit_branches(&mut a, op, n, then_code, else_code);
    a.get_main_instrs()
}

/// Puts the parts of an [`IfConst`] stamped `n` together.
pub fn assemble_if_const(
    value: Vec<Instr>,
    const_label: String,
    op: ComparisonOp,
    n: usize,
    then_code: Vec<Instr>,
    else_code: Option<Vec<Instr>>,
) -> (out: Vec<Instr>)
    ensures
        out.deep_view() == if_const_code(
            value.deep_view(),
            const_label@,
            op,
            n as nat,
            then_code.deep_view(),
            else_code.deep_view(),
        ),
{
    let mut a = Asm::new();
    a.emit_all(value);
    a.cp(Operand::Label(const_label));
    emit_branches(&mut a, op, n, then_code, else_code);
    a.get_main_instrs()
}

/// Puts the parts of an [`IfA`] stamped `n` together.
pub fn assemble_if_a(
    const_label: String,
    op: ComparisonOp,
    n: usize,
    then_code: Vec<Instr>,
    else_code: Option<Vec<Instr>>,
) -> (out: Vec<Instr>)
    ensures
        out.deep_view() == if_a_code(
            const_label@,
            op,
            n as nat,
            then_code.deep_view(),
            else_code.deep_view(),
        ),
{
    let mut a = Asm::new();
    a.cp(Operand::Label(const_label));
    emit_branches(&mut a, op, n, then_code, else_code);
    a.get_main_instrs()
}

/// Puts the parts of an [`IfCall`] stamped `n` together.
pub fn assemble_if_call(
    setup: Option<Vec<Instr>>,
    func_name: String,
    condition: Condition,
    n: usize,
    then_code: Vec<Instr>,
    else_code: Option<Vec<Instr>>,
) -> (out: Vec<Instr>)
    ensures
        out.deep_view() == if_call_code(
            setup.deep_view(),
            func_name@,
            condition,
            n as nat,
            then_code.deep_view(),
            else_code.deep_view(),
        ),
{
    let end_name = make_label(LabelRole::End, n);
    let else_name = make_label(LabelRole::Else, n);
    let mut a = Asm::new();
    match setup {
        Some(code) => {
            a.emit_all(code);
        },
        None => {},
    }
    a.emit(Instr::Call { target: JumpTarget::Label(func_name) });
    emit_simple(
        &mut a,
        condition.negated(),
        then_code,
        else_code,
        end_name.as_str(),
        else_name.as_str(),
    );
    a.label(end_name.as_str());
    a.get_main_instrs()
}

impl If {
    /// A block whose then-branch is taken when the tested relation `==` holds
    /// of the flags that comparing the two operands leaves.
    pub fn eq<L: Emittable, R: Emittable, T: Emittable>(
        left: L,
        right: R,
        then_branch: T,
    ) -> (r: Self)
        ensures
            r == (If {
                left: left.node(),
                right: right.node(),
                op: ComparisonOp::E,
                then_branch: then_branch.node(),
                else_branch: None,
            }),
    {
        If {
            left: left.into_node(),
            right: right.into_node(),
            op: ComparisonOp::E,
            then_branch: then_branch.into_node(),
            else_branch: None,
        }
    }

    /// A block whose then-branch is taken when the tested relation `!=` holds
    /// of the flags that comparing the two operands leaves.
    pub fn ne<L: Emittable, R: Emittable, T: Emittable>(
        left: L,
        right: R,
        then_branch: T,
    ) -> (r: Self)
        ensures
            r == (If {
                left: left.node(),
                right: right.node(),
                op: ComparisonOp::NE,
                then_branch: then_branch.node(),
                else_branch: None,
            }),
    {
        If {
            left: left.into_node(),
            right: right.into_node(),
            op: ComparisonOp::NE,
            then_branch: then_branch.into_node(),
            else_branch: None,
        }
    }

    /// A block whose then-branch is taken when the tested relation `<` holds
    /// of the flags that comparing the two operands leaves.
    pub fn lt<L: Emittable, R: Emittable, T: Emittable>(
        left: L,
        right: R,
        then_branch: T,
    ) -> (r: Self)
        ensures
            r == (If {
                left: left.node(),
                right: right.node(),
                op: ComparisonOp::LT,
                then_branch: then_branch.node(),
                else_branch: None,
            }),
    {
        If {
            left: left.into_node(),
            right: right.into_node(),
            op: ComparisonOp::LT,
            then_branch: then_branch.into_node(),
            else_branch: None,
        }
    }

    /// A block whose then-branch is taken when the tested relation `>=` holds
    /// of the flags that comparing the two operands leaves.
    pub fn ge<L: Emittable, R: Emittable, T: Emittable>(
        left: L,
        right: R,
        then_branch: T,
    ) -> (r: Self)
        ensures
            r == (If {
                left: left.node(),
                right: right.node(),
                op: ComparisonOp::GE,
                then_branch: then_branch.node(),
                else_branch: None,
            }),
    {
        If {
            left: left.into_node(),
            right: right.into_node(),
            op: ComparisonOp::GE,
            then_branch: then_branch.into_node(),
            else_branch: None,
        }
    }

    /// A block whose then-branch is taken when the tested relation `<=` holds
    /// of the flags that comparing the two operands leaves.
    pub fn le<L: Emittable, R: Emittable, T: Emittable>(
        left: L,
        right: R,
        then_branch: T,
    ) -> (r: Self)
        ensures
            r == (If {
                left: left.node(),
                right: right.node(),
                op: ComparisonOp::LE,
                then_branch: then_branch.node(),
                else_branch: None,
            }),
    {
        If {
            left: left.into_node(),
            right: right.into_node(),
            op: ComparisonOp::LE,
            then_branch: then_branch.into_node(),
            else_branch: None,
        }
    }

    /// A block whose then-branch is taken when the tested relation `>` holds
    /// of the flags that comparing the two operands leaves.
    pub fn gt<L: Emittable, R: Emittable, T: Emittable>(
        left: L,
        right: R,
        then_branch: T,
    ) -> (r: Self)
        ensures
            r == (If {
                left: left.node(),
                right: right.node(),
                op: ComparisonOp::GT,
                then_branch: then_branch.node(),
                else_branch: None,
            }),
    {
        If {
            left: left.into_node(),
            right: right.into_node(),
            op: ComparisonOp::GT,
            then_branch: then_branch.into_node(),
            else_branch: None,
        }
    }

    /// The block with an else-branch, which replaces any earlier one.
    pub fn or_else<E: Emittable>(self, else_branch: E) -> (r: Self)
        ensures
            r == (If {
                left: self.left,
                right: self.right,
                op: self.op,
                then_branch: self.then_branch,
                else_branch: Some(else_branch.node()),
            }),
    {
        If {
            left: self.left,
            right: self.right,
            op: self.op,
            then_branch: self.then_branch,
            else_branch: Some(else_branch.into_node()),
        }
    }
}

impl IfConst {
    /// A block whose then-branch is taken when the computed value is
    /// equal to the named constant.
    pub fn eq<V: Emittable, T: Emittable>(value: V, const_label: &str, then_branch: T) -> (r: Self)
        ensures
            r.value == value.node(),
            r.const_label@ == const_label@,
            r.op == ComparisonOp::E,
            r.then_branch == then_branch.node(),
            r.else_branch is None,
    {
        IfConst {
            value: value.into_node(),
            const_label: String::from_str(const_label),
            op: ComparisonOp::E,
            then_branch: then_branch.into_node(),
            else_branch: None,
        }
    }

    /// A block whose then-branch is taken when the computed value is
    /// different from the named constant.
    pub fn ne<V: Emittable, T: Emittable>(value: V, const_label: &str, then_branch: T) -> (r: Self)
        ensures
            r.value == value.node(),
            r.const_label@ == const_label@,
            r.op == ComparisonOp::NE,
            r.then_branch == then_branch.node(),
            r.else_branch is None,
    {
        IfConst {
            value: value.into_node(),
            const_label: String::from_str(const_label),
            op: ComparisonOp::NE,
            then_branch: then_branch.into_node(),
            else_branch: None,
        }
    }

    /// A block whose then-branch is taken when the computed value is
    /// less than the named constant.
    pub fn lt<V: Emittable, T: Emittable>(value: V, const_label: &str, then_branch: T) -> (r: Self)
        ensures
            r.value == value.node(),
            r.const_label@ == const_label@,
            r.op == ComparisonOp::LT,
            r.then_branch == then_branch.node(),
            r.else_branch is None,
    {
        IfConst {
            value: value.into_node(),
            const_label: String::from_str(const_label),
            op: ComparisonOp::LT,
            then_branch: then_branch.into_node(),
            else_branch: None,
        }
    }

    /// A block whose then-branch is taken when the computed value is
    /// greater than or equal to the named constant.
    pub fn ge<V: Emittable, T: Emittable>(value: V, const_label: &str, then_branch: T) -> (r: Self)
        ensures
            r.value == value.node(),
            r.const_label@ == const_label@,
            r.op == ComparisonOp::GE,
            r.then_branch == then_branch.node(),
            r.else_branch is None,
    {
        IfConst {
            value: value.into_node(),
            const_label: String::from_str(const_label),
            op: ComparisonOp::GE,
            then_branch: then_branch.into_node(),
            else_branch: None,
        }
    }

    /// A block whose then-branch is taken when the computed value is
    /// less than or equal to the named constant.
    pub fn le<V: Emittable, T: Emittable>(value: V, const_label: &str, then_branch: T) -> (r: Self)
        ensures
            r.value == value.node(),
            r.const_label@ == const_label@,
            r.op == ComparisonOp::LE,
            r.then_branch == then_branch.node(),
            r.else_branch is None,
    {
        IfConst {
            value: value.into_node(),
            const_label: String::from_str(const_label),
            op: ComparisonOp::LE,
            then_branch: then_branch.into_node(),
            else_branch: None,
        }
    }

    /// A block whose then-branch is taken when the computed value is
    /// greater than the named constant.
    pub fn gt<V: Emittable, T: Emittable>(value: V, const_label: &str, then_branch: T) -> (r: Self)
        ensures
            r.value == value.node(),
            r.const_label@ == const_label@,
            r.op == ComparisonOp::GT,
            r.then_branch == then_branch.node(),
            r.else_branch is None,
    {
        IfConst {
            value: value.into_node(),
            const_label: String::from_str(const_label),
            op: ComparisonOp::GT,
            then_branch: then_branch.into_node(),
            else_branch: None,
        }
    }

    /// The block with an else-branch, which replaces any earlier one.
    pub fn or_else<E: Emittable>(self, else_branch: E) -> (r: Self)
        ensures
            r == (IfConst {
                value: self.value,
                const_label: self.const_label,
                op: self.op,
                then_branch: self.then_branch,
                else_branch: Some(else_branch.node()),
            }),
    {
        IfConst {
            value: self.value,
            const_label: self.const_label,
            op: self.op,
            then_branch: self.then_branch,
            else_branch: Some(else_branch.into_node()),
        }
    }
}

impl IfA {
    /// A block whose then-branch is taken when the accumulator is equal to
    /// the named constant.
    pub fn eq<T: Emittable>(const_label: &str, then_branch: T) -> (r: Self)
        ensures
            r.const_label@ == const_label@,
            r.op == ComparisonOp::E,
            r.then_branch == then_branch.node(),
            r.else_branch is None,
    {
        IfA {
            const_label: String::from_str(const_label),
            op: ComparisonOp::E,
            then_branch: then_branch.into_node(),
            else_branch: None,
        }
    }

    /// A block whose then-branch is taken when the accumulator is different from
    /// the named constant.
    pub fn ne<T: Emittable>(const_label: &str, then_branch: T) -> (r: Self)
        ensures
            r.const_label@ == const_label@,
            r.op == ComparisonOp::NE,
            r.then_branch == then_branch.node(),
            r.else_branch is None,
    {
        IfA {
            const_label: String::from_str(const_label),
            op: ComparisonOp::NE,
            then_branch: then_branch.into_node(),
            else_branch: None,
        }
    }

    /// A block whose then-branch is taken when the accumulator is less than
    /// the named constant.
    pub fn lt<T: Emittable>(const_label: &str, then_branch: T) -> (r: Self)
        ensures
            r.const_label@ == const_label@,
            r.op == ComparisonOp::LT,
            r.then_branch == then_branch.node(),
            r.else_branch is None,
    {
        IfA {
            const_label: String::from_str(const_label),
            op: ComparisonOp::LT,
            then_branch: then_branch.into_node(),
            else_branch: None,
        }
    }

    /// A block whose then-branch is taken when the accumulator is greater than or equal to
    /// the named constant.
    pub fn ge<T: Emittable>(const_label: &str, then_branch: T) -> (r: Self)
        ensures
            r.const_label@ == const_label@,
            r.op == ComparisonOp::GE,
            r.then_branch == then_branch.node(),
            r.else_branch is None,
    {
        IfA {
            const_label: String::from_str(const_label),
            op: ComparisonOp::GE,
            then_branch: then_branch.into_node(),
            else_branch: None,
        }
    }

    /// A block whose then-branch is taken when the accumulator is less than or equal to
    /// the named constant.
    pub fn le<T: Emittable>(const_label: &str, then_branch: T) -> (r: Self)
        ensures
            r.const_label@ == const_label@,
            r.op == ComparisonOp::LE,
            r.then_branch == then_branch.node(),
            r.else_branch is None,
    {
        IfA {
            const_label: String::from_str(const_label),
            op: ComparisonOp::LE,
            then_branch: then_branch.into_node(),
            else_branch: None,
        }
    }

    /// A block whose then-branch is taken when the accumulator is greater than
    /// the named constant.
    pub fn gt<T: Emittable>(const_label: &str, then_branch: T) -> (r: Self)
        ensures
            r.const_label@ == const_label@,
            r.op == ComparisonOp::GT,
            r.then_branch == then_branch.node(),
            r.else_branch is None,
    {
        IfA {
            const_label: String::from_str(const_label),
            op: ComparisonOp::GT,
            then_branch: then_branch.into_node(),
            else_branch: None,
        }
    }

    /// The block with an else-branch, which replaces any earlier one.
    pub fn or_else<E: Emittable>(self, else_branch: E) -> (r: Self)
        ensures
            r == (IfA {
                const_label: self.const_label,
                op: self.op,
                then_branch: self.then_branch,
                else_branch: Some(else_branch.node()),
            }),
    {
        IfA {
            const_label: self.const_label,
            op: self.op,
            then_branch: self.then_branch,
            else_branch: Some(else_branch.into_node()),
        }
    }
}

impl IfCall {
    /// A block whose then-branch is taken when the routine returns with the zero flag set.
    pub fn is_true<T: Emittable>(func_name: &str, then_branch: T) -> (r: Self)
        ensures
            r.setup is None,
            r.func_name@ == func_name@,
            r.condition == Condition::Z,
            r.then_branch == then_branch.node(),
            r.else_branch is None,
    {
        IfCall {
            setup: None,
            func_name: String::from_str(func_name),
            condition: Condition::Z,
            then_branch: then_branch.into_node(),
            else_branch: None,
        }
    }

    /// A block whose then-branch is taken when the routine returns with the zero flag clear.
    pub fn is_false<T: Emittable>(func_name: &str, then_branch: T) -> (r: Self)
        ensures
            r.setup is None,
            r.func_name@ == func_name@,
            r.condition == Condition::NZ,
            r.then_branch == then_branch.node(),
            r.else_branch is None,
    {
        IfCall {
            setup: None,
            func_name: String::from_str(func_name),
            condition: Condition::NZ,
            then_branch: then_branch.into_node(),
            else_branch: None,
        }
    }

    /// A block whose then-branch is taken when the routine returns with the carry flag set.
    pub fn is_less<T: Emittable>(func_name: &str, then_branch: T) -> (r: Self)
        ensures
            r.setup is None,
            r.func_name@ == func_name@,
            r.condition == Condition::C,
            r.then_branch == then_branch.node(),
            r.else_branch is None,
    {
        IfCall {
            setup: None,
            func_name: String::from_str(func_name),
            condition: Condition::C,
            then_branch: then_branch.into_node(),
            else_branch: None,
        }
    }

    /// A block whose then-branch is taken when the routine returns with the carry flag clear.
    pub fn is_greater_eq<T: Emittable>(func_name: &str, then_branch: T) -> (r: Self)
        ensures
            r.setup is None,
            r.func_name@ == func_name@,
            r.condition == Condition::NC,
            r.then_branch == then_branch.node(),
            r.else_branch is None,
    {
        IfCall {
            setup: None,
            func_name: String::from_str(func_name),
            condition: Condition::NC,
            then_branch: then_branch.into_node(),
            else_branch: None,
        }
    }

    /// The block with instructions that run before the call, which replace
    /// any earlier ones.
    pub fn with_setup<S: Emittable>(self, setup: S) -> (r: Self)
        ensures
            r == (IfCall {
                setup: Some(setup.node()),
                func_name: self.func_name,
                condition: self.condition,
                then_branch: self.then_branch,
                else_branch: self.else_branch,
            }),
    {
        IfCall {
            setup: Some(setup.into_node()),
            func_name: self.func_name,
            condition: self.condition,
            then_branch: self.then_branch,
            else_branch: self.else_branch,
        }
    }

    /// The block with an else-branch, which replaces any earlier one.
    pub fn or_else<E: Emittable>(self, else_branch: E) -> (r: Self)
        ensures
            r == (IfCall {
                setup: self.setup,
                func_name: self.func_name,
                condition: self.condition,
                then_branch: self.then_branch,
                else_branch: Some(else_branch.node()),
            }),
    {
        IfCall {
            setup: self.setup,
            func_name: self.func_name,
            condition: self.condition,
            then_branch: self.then_branch,
            else_branch: Some(else_branch.into_node()),
        }
    }

    /// The condition on which the then-branch is skipped.
    pub fn inverted_condition(&self) -> (r: Condition)
        ensures
            r == self.condition.negation(),
    {
        self.condition.negated()
    }
}

impl Emittable for If {
    open spec fn node(self) -> Node {
        Node::If(Box::new(self))
    }

    fn into_node(self) -> (n: Node) {
        Node::If(Box::new(self))
    }

    fn emit(self, counter: &mut usize) -> (out: Vec<Instr>) {
        lower(Node::If(Box::new(self)), counter)
    }
}

impl Emittable for IfConst {
    open spec fn node(self) -> Node {
        Node::IfConst(Box::new(self))
    }

    fn into_node(self) -> (n: Node) {
        Node::IfConst(Box::new(self))
    }

    fn emit(self, counter: &mut usize) -> (out: Vec<Instr>) {
        lower(Node::IfConst(Box::new(self)), counter)
    }
}

impl Emittable for IfA {
    open spec fn node(self) -> Node {
        Node::IfA(Box::new(self))
    }

    fn into_node(self) -> (n: Node) {
        Node::IfA(Box::new(self))
    }

    fn emit(self, counter: &mut usize) -> (out: Vec<Instr>) {
        lower(Node::IfA(Box::new(self)), counter)
    }
}

impl Emittable for IfCall {
    open spec fn node(self) -> Node {
        Node::IfCall(Box::new(self))
    }

    fn into_node(self) -> (n: Node) {
        Node::IfCall(Box::new(self))
    }

    fn emit(self, counter: &mut usize) -> (out: Vec<Instr>) {
        lower(Node::IfCall(Box::new(self)), counter)
    }
}

} // verus!
