//! The two-flag model of the CPU and the path that control takes through
//! emitted jumps.
//!
//! A compare leaves two flags: zero, set when the two values are equal, and
//! carry, set when the first is below the second. `follow` traces jumps and
//! labels from a position until control reaches an instruction of another
//! kind. The laws at the end of this module state that the jumps of every
//! comparison select the then-branch exactly when the comparison holds.

use super::emittable::{Node, blocks, lowered, lowered_opt};
use super::flow_if::{
    ComparisonOp, If, IfA, IfConst, jump_if, jump_to, label_def, simple_head, skip_target,
};
use super::uniqueness::{definitions, leaves_plain, lemma_labels_once, lemma_none_outside};
use super::labels::{LabelRole, end_label, label_name, lemma_block_labels_distinct, then_label};
use crate::gb_asm::{Condition, Instr, InstrV, JumpTarget, JumpTargetV};
use crate::text::same_text;
use vstd::prelude::*;

verus! {

/// The condition flags that a compare leaves.
#[derive(Clone, Copy, Debug, PartialEq, Eq, Structural)]
pub struct Flags {
    /// Set when the compared values are equal.
    pub zero: bool,
    /// Set when the first value is below the second.
    pub carry: bool,
}

impl Flags {
    /// The flags after `left` was compared with `right`.
    pub open spec fn after_compare(left: u8, right: u8) -> Flags {
        Flags { zero: left == right, carry: left < right }
    }

    /// Whether a flag test succeeds on these flags.
    pub open spec fn holds(self, condition: Condition) -> bool {
        match condition {
            Condition::Z => self.zero,
            Condition::NZ => !self.zero,
            Condition::C => self.carry,
            Condition::NC => !self.carry,
        }
    }

    /// The flags after `left` was compared with `right`.
    pub fn compare(left: u8, right: u8) -> (r: Flags)
        ensures
            r == Flags::after_compare(left, right),
    {
        Flags { zero: left == right, carry: left < right }
    }

    /// Whether a flag test succeeds on these flags.
    pub fn test(&self, condition: Condition) -> (r: bool)
        ensures
            r == self.holds(condition),
    {
        match condition {
            Condition::Z => self.zero,
            Condition::NZ => !self.zero,
            Condition::C => self.carry,
            Condition::NC => !self.carry,
        }
    }
}

impl ComparisonOp {
    /// Whether the comparison holds, read off the flags of a compare.
    pub open spec fn holds_on(self, flags: Flags) -> bool {
        match self {
            ComparisonOp::E => flags.zero,
            ComparisonOp::NE => !flags.zero,
            ComparisonOp::LT => flags.carry,
            ComparisonOp::GE => !flags.carry,
            ComparisonOp::LE => flags.carry || flags.zero,
            ComparisonOp::GT => !flags.carry && !flags.zero,
        }
    }
}

/// Where control ends up after following jumps.
pub enum Landing {
    /// At the instruction with this index, which is neither a jump nor a
    /// label; or past the last instruction, at the length of the code.
    At(int),
    /// Out of the code, at a target that the code after the jump does not
    /// define.
    Leaves(JumpTargetV),
}

/// Where control ends up after following jumps.
#[derive(Debug)]
pub enum Landed {
    /// At the instruction with this index, or past the last instruction.
    At(usize),
    /// Out of the code, at a target that it does not define further on.
    Leaves(JumpTarget),
}

impl DeepView for Landed {
    type V = Landing;

    open spec fn deep_view(&self) -> Landing {
        match self {
            Landed::At(i) => Landing::At(*i as int),
            Landed::Leaves(t) => Landing::Leaves(t.deep_view()),
        }
    }
}

/// The index of the first definition of the label `name` at or after
/// `from`; the length of the code where there is none.
pub open spec fn find_label(code: Seq<InstrV>, name: Seq<char>, from: int) -> int
    decreases code.len() - from,
{
    if from < 0 || from >= code.len() {
        code.len() as int
    } else if code[from] == label_def(name) {
        from
    } else {
        find_label(code, name, from + 1)
    }
}

/// Where a jump from `pc` to `target` leads: to the label's definition
/// further on, from where control is followed on, or out of the code.
pub open spec fn jump_from(code: Seq<InstrV>, pc: int, target: JumpTargetV, flags: Flags) -> Landing
    decreases code.len() - pc, 0nat,
{
    match target {
        JumpTargetV::Label(name) => {
            let j = find_label(code, name, pc + 1);
            if pc < j && j < code.len() {
                follow(code, j, flags)
            } else {
                Landing::Leaves(target)
            }
        },
        JumpTargetV::Addr(_) => Landing::Leaves(target),
    }
}

/// Where control ends up when it starts at `pc` with the given flags:
/// labels are passed, jumps are taken when their condition holds, and the
/// first instruction of another kind stops the walk. Jumps lead forward, to
/// the next definition of their label.
pub open spec fn follow(code: Seq<InstrV>, pc: int, flags: Flags) -> Landing
    decreases code.len() - pc, 1nat,
{
    if pc < 0 || pc >= code.len() {
        Landing::At(code.len() as int)
    } else {
        match code[pc] {
            InstrV::Label { .. } => follow(code, pc + 1, flags),
            InstrV::Jp { target } => jump_from(code, pc, target, flags),
            InstrV::Jr { target } => jump_from(code, pc, target, flags),
            InstrV::JpCond { condition, target } => if flags.holds(condition) {
                jump_from(code, pc, target, flags)
            } else {
                follow(code, pc + 1, flags)
            },
            InstrV::JrCond { condition, target } => if flags.holds(condition) {
                jump_from(code, pc, target, flags)
            } else {
                follow(code, pc + 1, flags)
            },
            _ => Landing::At(pc),
        }
    }
}

/// The index of the first definition of the label `name` at or after
/// `from`; the length of the code where there is none.
pub fn find_label_from(code: &Vec<Instr>, name: &str, from: usize) -> (r: usize)
    ensures
        r == find_label(code.deep_view(), name@, from as int),
        from <= r || r == code.len(),
        r <= code.len(),
{
    let n: usize = code.len();
    let mut i: usize = from;
    while i < n
        invariant
            n == code.len(),
            from <= i,
            find_label(code.deep_view(), name@, i as int) == find_label(
                code.deep_view(),
                name@,
                from as int,
            ),
        decreases n - i,
    {
        let found = match &code[i] {
            Instr::Label { name: defined } => same_text(defined.as_str(), name),
            _ => false,
        };
        if found {
            return i;
        }
        i = i + 1;
    }
    n
}

/// Where a jump from `pc` to `target` leads. `None` stands for a landing
/// that is still to be followed from the returned index.
fn resolve_jump(code: &Vec<Instr>, pc: usize, target: &JumpTarget) -> (r: Option<usize>)
    requires
        pc < code.len(),
    ensures
        match r {
            Some(j) => pc < j < code.len() && forall|flags: Flags|
                #[trigger] jump_from(code.deep_view(), pc as int, target.deep_view(), flags)
                    == follow(code.deep_view(), j as int, flags),
            None => forall|flags: Flags|
                #[trigger] jump_from(code.deep_view(), pc as int, target.deep_view(), flags)
                    == Landing::Leaves(target.deep_view()),
        },
{
    match target {
        JumpTarget::Label(name) => {
            let j = find_label_from(code, name.as_str(), pc + 1);
            if pc < j && j < code.len() {
                Some(j)
            } else {
                None
            }
        },
        JumpTarget::Addr(_) => None,
    }
}

/// Follows jumps and labels from `start` with the given flags, and says
/// where control ends up.
pub fn follow_jumps(code: &Vec<Instr>, start: usize, flags: Flags) -> (r: Landed)
    ensures
        r.deep_view() == follow(code.deep_view(), start as int, flags),
{
    let n: usize = code.len();
    let mut pc: usize = start;
    loop
        invariant
            n == code.len(),
            follow(code.deep_view(), pc as int, flags) == follow(
                code.deep_view(),
                start as int,
                flags,
            ),
        decreases n - pc,
    {
        if pc >= n {
            return Landed::At(n);
        }
        let taken: Option<&JumpTarget> = match &code[pc] {
            Instr::Label { .. } => None,
            Instr::Jp { target } => Some(target),
            Instr::Jr { target } => Some(target),
            Instr::JpCond { condition, target } => if flags.test(*condition) {
                Some(target)
            } else {
                None
            },
            Instr::JrCond { condition, target } => if flags.test(*condition) {
                Some(target)
            } else {
                None
            },
            _ => {
                return Landed::At(pc);
            },
        };
        assert(match taken {
            Some(target) => follow(code.deep_view(), pc as int, flags) == jump_from(
                code.deep_view(),
                pc as int,
                target.deep_view(),
                flags,
            ),
            None => follow(code.deep_view(), pc as int, flags) == follow(
                code.deep_view(),
                pc + 1,
                flags,
            ),
        });
        match taken {
            Some(target) => {
                match resolve_jump(code, pc, target) {
                    Some(j) => {
                        pc = j;
                    },
                    None => {
                        return Landed::Leaves(target.clone());
                    },
                }
            },
            None => {
                pc = pc + 1;
            },
        }
    }
}

/// The flags of a compare decide each of the six comparisons.
pub proof fn lemma_flags_decide(op: ComparisonOp, left: u8, right: u8)
    ensures
        op.holds_on(Flags::after_compare(left, right)) == op.holds(left, right),
{
}

/// The jumps of a block select by the flags: whatever the flags are,
/// control falls through the jumps into the then-branch when the comparison
/// holds on them, and leaves for the else label (the end label where there
/// is no else-branch) when it does not. The two outcomes exclude each other
/// and one of them always occurs.
pub proof fn lemma_branch_selection(op: ComparisonOp, has_else: bool, n: nat, flags: Flags)
    ensures
        follow(op.head(has_else, n), 0, flags) == if op.holds_on(flags) {
            Landing::At(op.head(has_else, n).len() as int)
        } else {
            Landing::Leaves(JumpTargetV::Label(skip_target(has_else, n)))
        },
{
    lemma_block_labels_distinct(n);
    reveal_with_fuel(follow, 6);
    reveal_with_fuel(jump_from, 6);
    reveal_with_fuel(find_label, 6);
}

/// Exhaustive correctness: for every comparison and every pair of values,
/// the jumps of the block, followed with the flags of comparing `left` with
/// `right`, lead into the then-branch if and only if the comparison holds of
/// `left` and `right`, and otherwise to the else label, or to the end label
/// where the block has no else-branch.
pub proof fn lemma_exhaustive_correctness(
    op: ComparisonOp,
    left: u8,
    right: u8,
    has_else: bool,
    n: nat,
)
    ensures
        follow(op.head(has_else, n), 0, Flags::after_compare(left, right)) == if op.holds(
            left,
            right,
        ) {
            Landing::At(op.head(has_else, n).len() as int)
        } else {
            Landing::Leaves(JumpTargetV::Label(skip_target(has_else, n)))
        },
{
    lemma_flags_decide(op, left, right);
    lemma_branch_selection(op, has_else, n, Flags::after_compare(left, right));
}

/// A search for a label passes over instructions that do not define it.
pub proof fn lemma_find_label_skips(code: Seq<InstrV>, name: Seq<char>, from: int, to: int)
    requires
        0 <= from <= to <= code.len(),
        forall|i: int| from <= i < to ==> #[trigger] code[i] != label_def(name),
    ensures
        find_label(code, name, from) == find_label(code, name, to),
    decreases to - from,
{
    if from < to {
        lemma_find_label_skips(code, name, from + 1, to);
    }
}

/// Code that holds no definition of a label holds none at any place.
pub proof fn lemma_undefined_nowhere(code: Seq<InstrV>, name: Seq<char>, i: int)
    requires
        definitions(code, name) == 0,
        0 <= i < code.len(),
    ensures
        code[i] != label_def(name),
    decreases code.len(),
{
    if i < code.len() - 1 {
        lemma_undefined_nowhere(code.drop_last(), name, i);
    }
}

/// A label is passed.
pub proof fn lemma_step_label(code: Seq<InstrV>, pc: int, flags: Flags)
    requires
        0 <= pc < code.len(),
        code[pc] is Label,
    ensures
        follow(code, pc, flags) == follow(code, pc + 1, flags),
{
}

/// A conditional jump whose condition does not hold is passed.
pub proof fn lemma_step_untaken(
    code: Seq<InstrV>,
    pc: int,
    flags: Flags,
    condition: Condition,
    name: Seq<char>,
)
    requires
        0 <= pc < code.len(),
        code[pc] == jump_if(condition, name),
        !flags.holds(condition),
    ensures
        follow(code, pc, flags) == follow(code, pc + 1, flags),
{
}

/// A conditional jump whose condition holds leads to the next definition
/// of its label.
pub proof fn lemma_step_taken(
    code: Seq<InstrV>,
    pc: int,
    flags: Flags,
    condition: Condition,
    name: Seq<char>,
    to: int,
)
    requires
        0 <= pc < to < code.len(),
        code[pc] == jump_if(condition, name),
        flags.holds(condition),
        find_label(code, name, pc + 1) == to,
    ensures
        follow(code, pc, flags) == follow(code, to, flags),
{
    let target = JumpTargetV::Label(name);
    assert(jump_from(code, pc, target, flags) == follow(code, to, flags));
}

/// A jump leads to the next definition of its label.
pub proof fn lemma_step_jump(code: Seq<InstrV>, pc: int, flags: Flags, name: Seq<char>, to: int)
    requires
        0 <= pc < to < code.len(),
        code[pc] == jump_to(name),
        find_label(code, name, pc + 1) == to,
    ensures
        follow(code, pc, flags) == follow(code, to, flags),
{
    let target = JumpTargetV::Label(name);
    assert(jump_from(code, pc, target, flags) == follow(code, to, flags));
}

/// Where control goes when a block does not take its then-branch: to the
/// first instruction of the else-branch, or past the end label where the
/// block has no else-branch. The index counts from the first jump of the
/// block.
pub open spec fn skip_landing(
    head: Seq<InstrV>,
    then_code: Seq<InstrV>,
    else_code: Option<Seq<InstrV>>,
) -> int {
    head.len() + then_code.len() + if else_code is Some {
        2int
    } else {
        1int
    }
}

/// The label that a block jumps to in order to skip its then-branch is
/// found behind the then-branch: a search that starts within the jumps of
/// the block, behind those of them that define that label, finds it there,
/// and control goes on from it at the instruction behind it.
proof fn lemma_skip_label_found(
    before: Seq<InstrV>,
    head: Seq<InstrV>,
    n: nat,
    then_code: Seq<InstrV>,
    else_code: Option<Seq<InstrV>>,
    after: Seq<InstrV>,
    from: int,
    flags: Flags,
)
    requires
        definitions(then_code, skip_target(else_code is Some, n)) == 0,
        0 <= from <= head.len(),
        forall|i: int|
            from <= i < head.len() ==> #[trigger] head[i] != label_def(
                skip_target(else_code is Some, n),
            ),
    ensures
        ({
            let code = before + super::flow_if::branch_code(head, n, then_code, else_code) + after;
            let landing = before.len() + skip_landing(head, then_code, else_code);
            &&& before.len() + from <= landing - 1 < code.len()
            &&& find_label(code, skip_target(else_code is Some, n), before.len() + from) == landing
                - 1
            &&& follow(code, landing - 1, flags) == follow(code, landing, flags)
        }),
{
    let target = skip_target(else_code is Some, n);
    let block = super::flow_if::branch_code(head, n, then_code, else_code);
    let code = before + block + after;
    let p = before.len() as int;
    let h = head.len() as int;
    let t = then_code.len() as int;
    let s = p + skip_landing(head, then_code, else_code) - 1;
    assert forall|i: int| p + from <= i < s implies #[trigger] code[i] != label_def(target) by {
        if p + h <= i < p + h + t {
            lemma_undefined_nowhere(then_code, target, i - p - h);
        }
    }
    lemma_find_label_skips(code, target, p + from, s);
    lemma_step_label(code, s, flags);
}

/// Selection in place: wherever the branches of a block stand in a
/// program, control that reaches their first jump goes on at the first
/// instruction of the then-branch when the comparison holds on the flags,
/// and at the first instruction of the else-branch when it does not; where
/// the block has no else-branch, it then goes on after the end label. The
/// then-branch must not define the label that the block jumps to in order
/// to skip it.
pub proof fn lemma_selection_in_place(
    before: Seq<InstrV>,
    op: ComparisonOp,
    n: nat,
    then_code: Seq<InstrV>,
    else_code: Option<Seq<InstrV>>,
    after: Seq<InstrV>,
    flags: Flags,
)
    requires
        definitions(then_code, skip_target(else_code is Some, n)) == 0,
    ensures
        ({
            let head = op.head(else_code is Some, n);
            let code = before + super::flow_if::branch_code(head, n, then_code, else_code) + after;
            follow(code, before.len() as int, flags) == if op.holds_on(flags) {
                follow(code, (before.len() + head.len()) as int, flags)
            } else {
                follow(code, before.len() + skip_landing(head, then_code, else_code), flags)
            }
        }),
{
    let has_else = else_code is Some;
    let head = op.head(has_else, n);
    let target = skip_target(has_else, n);
    let block = super::flow_if::branch_code(head, n, then_code, else_code);
    let code = before + block + after;
    let p = before.len() as int;
    let landing = p + skip_landing(head, then_code, else_code);
    lemma_block_labels_distinct(n);
    assert forall|i: int| 0 <= i < head.len() implies code[p + i] == head[i] by {
    }
    match op {
        ComparisonOp::LE => {
            lemma_step_label(code, p + 3, flags);
            if flags.carry {
                lemma_find_label_skips(code, then_label(n), p + 1, p + 3);
                lemma_step_taken(code, p, flags, Condition::C, then_label(n), p + 3);
            } else {
                lemma_step_untaken(code, p, flags, Condition::C, then_label(n));
                if flags.zero {
                    lemma_find_label_skips(code, then_label(n), p + 2, p + 3);
                    lemma_step_taken(code, p + 1, flags, Condition::Z, then_label(n), p + 3);
                } else {
                    lemma_step_untaken(code, p + 1, flags, Condition::Z, then_label(n));
                    lemma_skip_label_found(before, head, n, then_code, else_code, after, 3, flags);
                    lemma_step_jump(code, p + 2, flags, target, landing - 1);
                }
            }
        },
        ComparisonOp::GT => {
            if flags.carry {
                lemma_skip_label_found(before, head, n, then_code, else_code, after, 1, flags);
                lemma_step_taken(code, p, flags, Condition::C, target, landing - 1);
            } else {
                lemma_step_untaken(code, p, flags, Condition::C, target);
                if flags.zero {
                    lemma_skip_label_found(before, head, n, then_code, else_code, after, 2, flags);
                    lemma_step_taken(code, p + 1, flags, Condition::Z, target, landing - 1);
                } else {
                    lemma_step_untaken(code, p + 1, flags, Condition::Z, target);
                }
            }
        },
        _ => {
            let skip = op.skip_condition();
            if flags.holds(skip) {
                lemma_skip_label_found(before, head, n, then_code, else_code, after, 1, flags);
                lemma_step_taken(code, p, flags, skip, target, landing - 1);
            } else {
                lemma_step_untaken(code, p, flags, skip, target);
            }
        },
    }
}

/// The then-branch of a block does not define the label that the block
/// jumps to in order to skip it: its labels carry later stamps.
pub proof fn lemma_then_branch_keeps_clear(
    then_branch: Node,
    at: nat,
    has_else: bool,
    n: nat,
)
    requires
        leaves_plain(then_branch),
        n < at,
    ensures
        definitions(lowered(then_branch, at), skip_target(has_else, n)) == 0,
{
    let target = skip_target(has_else, n);
    lemma_labels_once(then_branch, at, target);
    lemma_none_outside(
        target,
        definitions(lowered(then_branch, at), target),
        at,
        at + blocks(then_branch),
        n,
    );
}

/// Exhaustive correctness of a lowered block: in the code that a
/// comparison of two computed values lowers to, control that has passed
/// the compare with the flags of comparing `left` with `right` goes on at
/// the first instruction of the then-branch if and only if the comparison
/// holds of `left` and `right`, and otherwise at the first instruction of
/// the else-branch, or after the end label where the block has no
/// else-branch. The raw instructions of the block must define no label.
pub proof fn lemma_if_selects(block: If, c: nat, left: u8, right: u8)
    requires
        leaves_plain(Node::If(Box::new(block))),
    ensures
        ({
            let code = lowered(Node::If(Box::new(block)), c);
            let then_at = c + 1 + blocks(block.left) + blocks(block.right);
            let then_code = lowered(block.then_branch, then_at);
            let else_code = lowered_opt(block.else_branch, then_at + blocks(block.then_branch));
            let head = block.op.head(else_code is Some, c);
            let first_jump = lowered(block.left, c + 1).len() + lowered(
                block.right,
                c + 1 + blocks(block.left),
            ).len() + 2;
            follow(code, first_jump as int, Flags::after_compare(left, right)) == if block.op.holds(
                left,
                right,
            ) {
                follow(code, (first_jump + head.len()) as int, Flags::after_compare(left, right))
            } else {
                follow(
                    code,
                    first_jump + skip_landing(head, then_code, else_code),
                    Flags::after_compare(left, right),
                )
            }
        }),
{
    let flags = Flags::after_compare(left, right);
    let then_at = c + 1 + blocks(block.left) + blocks(block.right);
    let then_code = lowered(block.then_branch, then_at);
    let else_code = lowered_opt(block.else_branch, then_at + blocks(block.then_branch));
    let head = block.op.head(else_code is Some, c);
    let before = (lowered(block.left, c + 1).push(super::flow_if::save_left()) + lowered(
        block.right,
        c + 1 + blocks(block.left),
    )).push(super::flow_if::compare_saved());
    lemma_flags_decide(block.op, left, right);
    lemma_then_branch_keeps_clear(block.then_branch, then_at, else_code is Some, c);
    lemma_selection_in_place(
        before,
        block.op,
        c,
        then_code,
        else_code,
        Seq::<InstrV>::empty(),
        flags,
    );
}

/// Exhaustive correctness of a comparison with a named constant; see
/// [`lemma_if_selects`]. The flags are those of comparing the computed
/// value with the value of the constant.
pub proof fn lemma_if_const_selects(block: IfConst, c: nat, left: u8, right: u8)
    requires
        leaves_plain(Node::IfConst(Box::new(block))),
    ensures
        ({
            let code = lowered(Node::IfConst(Box::new(block)), c);
            let then_at = c + 1 + blocks(block.value);
            let then_code = lowered(block.then_branch, then_at);
            let else_code = lowered_opt(block.else_branch, then_at + blocks(block.then_branch));
            let head = block.op.head(else_code is Some, c);
            let first_jump = lowered(block.value, c + 1).len() + 1;
            follow(code, first_jump as int, Flags::after_compare(left, right)) == if block.op.holds(
                left,
                right,
            ) {
                follow(code, (first_jump + head.len()) as int, Flags::after_compare(left, right))
            } else {
                follow(
                    code,
                    first_jump + skip_landing(head, then_code, else_code),
                    Flags::after_compare(left, right),
                )
            }
        }),
{
    let flags = Flags::after_compare(left, right);
    let then_at = c + 1 + blocks(block.value);
    let then_code = lowered(block.then_branch, then_at);
    let else_code = lowered_opt(block.else_branch, then_at + blocks(block.then_branch));
    let head = block.op.head(else_code is Some, c);
    let before = lowered(block.value, c + 1).push(
        super::flow_if::compare_const(block.const_label@),
    );
    lemma_flags_decide(block.op, left, right);
    lemma_then_branch_keeps_clear(block.then_branch, then_at, else_code is Some, c);
    lemma_selection_in_place(
        before,
        block.op,
        c,
        then_code,
        else_code,
        Seq::<InstrV>::empty(),
        flags,
    );
}

/// Exhaustive correctness of a comparison of the accumulator with a named
/// constant; see [`lemma_if_selects`]. The flags are those of comparing the
/// accumulator with the value of the constant.
pub proof fn lemma_if_a_selects(block: IfA, c: nat, left: u8, right: u8)
    requires
        leaves_plain(Node::IfA(Box::new(block))),
    ensures
        ({
            let code = lowered(Node::IfA(Box::new(block)), c);
            let then_code = lowered(block.then_branch, c + 1);
            let else_code = lowered_opt(block.else_branch, c + 1 + blocks(block.then_branch));
            let head = block.op.head(else_code is Some, c);
            follow(code, 1, Flags::after_compare(left, right)) == if block.op.holds(left, right) {
                follow(code, (1 + head.len()) as int, Flags::after_compare(left, right))
            } else {
                follow(
                    code,
                    1 + skip_landing(head, then_code, else_code),
                    Flags::after_compare(left, right),
                )
            }
        }),
{
    let flags = Flags::after_compare(left, right);
    let then_code = lowered(block.then_branch, c + 1);
    let else_code = lowered_opt(block.else_branch, c + 1 + blocks(block.then_branch));
    let head = block.op.head(else_code is Some, c);
    let before = seq![super::flow_if::compare_const(block.const_label@)];
    lemma_flags_decide(block.op, left, right);
    lemma_then_branch_keeps_clear(block.then_branch, c + 1, else_code is Some, c);
    lemma_selection_in_place(
        before,
        block.op,
        c,
        then_code,
        else_code,
        Seq::<InstrV>::empty(),
        flags,
    );
}

/// The jump of a flag-testing block selects by the flag: control falls into
/// the then-branch when `condition` holds, and leaves for the else label, or
/// the end label, when it does not.
pub proof fn lemma_flag_selection(condition: Condition, has_else: bool, n: nat, flags: Flags)
    ensures
        follow(simple_head(condition.negation(), skip_target(has_else, n)), 0, flags)
            == if flags.holds(condition) {
            Landing::At(1)
        } else {
            Landing::Leaves(JumpTargetV::Label(skip_target(has_else, n)))
        },
{
    reveal_with_fuel(follow, 3);
    reveal_with_fuel(jump_from, 3);
    reveal_with_fuel(find_label, 3);
}

} // verus!
