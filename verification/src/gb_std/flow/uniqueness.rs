//! Uniqueness of the generated labels.
//!
//! Lowering stamps each conditional block with one value of the counter and
//! never hands a value out twice. The laws of this module state what
//! follows for the lowered code of a whole tree whose raw instructions
//! define no labels themselves: no label is defined twice, every label is a
//! generated one with a stamp taken during the lowering, and each value
//! taken stamps exactly one end label.

use super::emittable::{
    Node, is_block, blocks, blocks_all, blocks_opt, call_instr, lowered, lowered_all, lowered_opt,
};
use super::flow_if::{
    ComparisonOp, If, IfA, IfCall, IfConst, branch_code, compare_const, compare_saved, else_part,
    if_a_code, if_call_code, if_code, if_const_code, jump_if, jump_to, label_def, save_left,
    simple_head, skip_target,
};
use super::labels::{
    LabelRole, else_label, end_label, label_name, lemma_block_labels_distinct,
    lemma_label_name_injective, then_label,
};
use crate::gb_asm::{Condition, InstrV};
use vstd::prelude::*;

verus! {

/// The number of definitions of `label` in a sequence of instructions.
pub open spec fn definitions(code: Seq<InstrV>, label: Seq<char>) -> nat
    decreases code.len(),
{
    if code.len() == 0 {
        0
    } else {
        definitions(code.drop_last(), label) + if code.last() == label_def(label) {
            1nat
        } else {
            0nat
        }
    }
}

/// Whether a sequence of instructions defines no label.
pub open spec fn plain(code: Seq<InstrV>) -> bool {
    forall|i: int| 0 <= i < code.len() ==> !((#[trigger] code[i]) is Label)
}

/// Whether an optional node has no raw instructions that define a label.
pub open spec fn leaves_plain_opt(node: Option<Node>) -> bool
    decreases node, 0nat,
{
    match node {
        Some(n) => leaves_plain(n),
        None => true,
    }
}

/// Whether the raw instructions of a tree define no label, so that all
/// labels of its lowered code are generated ones.
pub open spec fn leaves_plain(node: Node) -> bool
    decreases node, 0nat,
{
    match node {
        Node::Raw(v) => plain(v.deep_view()),
        Node::Flat(vv) => plain(vv.deep_view().flatten()),
        Node::Many(v) => leaves_plain_all(v, v.len() as nat),
        Node::Call(call) => plain(call.args.deep_view()),
        Node::Op(op) => plain(op.0.deep_view()),
        Node::If(b) => leaves_plain(b.left) && leaves_plain(b.right) && leaves_plain(
            b.then_branch,
        ) && leaves_plain_opt(b.else_branch),
        Node::IfConst(b) => leaves_plain(b.value) && leaves_plain(b.then_branch)
            && leaves_plain_opt(b.else_branch),
        Node::IfA(b) => leaves_plain(b.then_branch) && leaves_plain_opt(b.else_branch),
        Node::IfCall(b) => leaves_plain_opt(b.setup) && leaves_plain(b.then_branch)
            && leaves_plain_opt(b.else_branch),
    }
}

/// Whether the raw instructions of the first `k` nodes define no label.
pub open spec fn leaves_plain_all(v: Vec<Node>, k: nat) -> bool
    decreases v, k,
{
    if k == 0 || k > v.len() {
        true
    } else {
        leaves_plain_all(v, (k - 1) as nat) && leaves_plain(v[k - 1])
    }
}

/// Whether `label` is a generated label whose stamp lies in `lo..hi`.
pub open spec fn stamped_within(label: Seq<char>, lo: nat, hi: nat) -> bool {
    exists|role: LabelRole, n: nat| #[trigger] label_name(role, n) == label && lo <= n < hi
}

/// The definitions in two sequences add up in their concatenation.
pub proof fn lemma_definitions_concat(a: Seq<InstrV>, b: Seq<InstrV>, label: Seq<char>)
    ensures
        definitions(a + b, label) == definitions(a, label) + definitions(b, label),
    decreases b.len(),
{
    if b.len() == 0 {
    } else {
        assert((a + b).drop_last() =~= a + b.drop_last());
        lemma_definitions_concat(a, b.drop_last(), label);
    }
}

/// One more instruction adds one definition if it defines the label, and
/// none if it does not.
pub proof fn lemma_definitions_push(a: Seq<InstrV>, x: InstrV, label: Seq<char>)
    ensures
        definitions(a.push(x), label) == definitions(a, label) + if x == label_def(label) {
            1nat
        } else {
            0nat
        },
{
    assert(a.push(x).drop_last() =~= a);
}

/// Instructions that define no label do not define `label`.
pub proof fn lemma_plain_defines_nothing(code: Seq<InstrV>, label: Seq<char>)
    requires
        plain(code),
    ensures
        definitions(code, label) == 0,
    decreases code.len(),
{
    if code.len() > 0 {
        assert forall|i: int| 0 <= i < code.drop_last().len() implies !((
        #[trigger] code.drop_last()[i]) is Label) by {
        }
        lemma_plain_defines_nothing(code.drop_last(), label);
    }
}

/// A label cannot carry stamps from two ranges that do not overlap.
pub proof fn lemma_stamp_ranges(label: Seq<char>, lo1: nat, hi1: nat, lo2: nat, hi2: nat)
    requires
        stamped_within(label, lo1, hi1),
        stamped_within(label, lo2, hi2),
    ensures
        lo2 < hi1,
        lo1 < hi2,
{
    let (r1, n1) = choose|role: LabelRole, n: nat|
        #[trigger] label_name(role, n) == label && lo1 <= n < hi1;
    let (r2, n2) = choose|role: LabelRole, n: nat|
        #[trigger] label_name(role, n) == label && lo2 <= n < hi2;
    lemma_label_name_injective(r1, n1, r2, n2);
}

/// A stamp within a range lies within every wider range.
pub proof fn lemma_stamp_wider(label: Seq<char>, lo: nat, hi: nat, lo2: nat, hi2: nat)
    requires
        stamped_within(label, lo, hi),
        lo2 <= lo,
        hi <= hi2,
    ensures
        stamped_within(label, lo2, hi2),
{
    let (r, n) = choose|role: LabelRole, n: nat|
        #[trigger] label_name(role, n) == label && lo <= n < hi;
}

/// What a count of definitions must satisfy to speak of labels that are
/// defined at most once and stamped within `lo..hi`.
pub open spec fn once_within(count: nat, label: Seq<char>, lo: nat, hi: nat) -> bool {
    count <= 1 && (count >= 1 ==> stamped_within(label, lo, hi))
}

/// Two pieces of code with stamps from adjoining ranges define a label at
/// most once between them.
pub proof fn lemma_once_joined(
    label: Seq<char>,
    d1: nat,
    lo: nat,
    mid: nat,
    d2: nat,
    hi: nat,
)
    requires
        once_within(d1, label, lo, mid),
        once_within(d2, label, mid, hi),
        lo <= mid <= hi,
    ensures
        once_within(d1 + d2, label, lo, hi),
{
    if d1 >= 1 && d2 >= 1 {
        lemma_stamp_ranges(label, lo, mid, mid, hi);
    }
    if d1 >= 1 {
        lemma_stamp_wider(label, lo, mid, lo, hi);
    }
    if d2 >= 1 {
        lemma_stamp_wider(label, mid, hi, lo, hi);
    }
}

/// The number of definitions of `label` among the labels of the block
/// stamped `n` itself: its then label if it has one, its else label if it
/// has an else-branch, and its end label.
pub open spec fn own_definitions(has_then: bool, has_else: bool, n: nat, label: Seq<char>) -> nat {
    (if has_then && label == then_label(n) {
        1nat
    } else {
        0nat
    }) + (if has_else && label == else_label(n) {
        1nat
    } else {
        0nat
    }) + (if label == end_label(n) {
        1nat
    } else {
        0nat
    })
}

/// The labels of a block itself are defined once each and carry its stamp.
pub proof fn lemma_own_definitions(has_then: bool, has_else: bool, n: nat, label: Seq<char>)
    ensures
        once_within(own_definitions(has_then, has_else, n, label), label, n, n + 1),
        own_definitions(has_then, has_else, n, end_label(n)) == 1,
{
    lemma_block_labels_distinct(n);
}

/// The definitions of a label in optional code.
pub open spec fn definitions_opt(code: Option<Seq<InstrV>>, label: Seq<char>) -> nat {
    match code {
        Some(c) => definitions(c, label),
        None => 0,
    }
}

/// The definitions in the branches of a block: those in the then-branch and
/// the else-branch, and the block's own.
pub proof fn lemma_branch_definitions(
    head: Seq<InstrV>,
    has_then: bool,
    n: nat,
    then_code: Seq<InstrV>,
    else_code: Option<Seq<InstrV>>,
    label: Seq<char>,
)
    requires
        definitions(head, label) == if has_then && label == then_label(n) {
            1nat
        } else {
            0nat
        },
    ensures
        definitions(branch_code(head, n, then_code, else_code), label) == own_definitions(
            has_then,
            else_code is Some,
            n,
            label,
        ) + definitions(then_code, label) + match else_code {
            Some(code) => definitions(code, label),
            None => 0,
        },
{
    let tail = else_part(end_label(n), else_label(n), else_code);
    lemma_definitions_push(head + then_code + tail, label_def(end_label(n)), label);
    lemma_definitions_concat(head + then_code, tail, label);
    lemma_definitions_concat(head, then_code, label);
    match else_code {
        Some(code) => {
            let bridge = seq![jump_to(end_label(n)), label_def(else_label(n))];
            lemma_definitions_concat(bridge, code, label);
            assert(bridge =~= Seq::<InstrV>::empty().push(jump_to(end_label(n))).push(
                label_def(else_label(n)),
            ));
            lemma_definitions_push(
                Seq::<InstrV>::empty().push(jump_to(end_label(n))),
                label_def(else_label(n)),
                label,
            );
            lemma_definitions_push(Seq::<InstrV>::empty(), jump_to(end_label(n)), label);
        },
        None => {},
    }
}

/// The jumps of a comparison define the then label when the comparison is
/// "less than or equal", and nothing else.
pub proof fn lemma_head_definitions(op: ComparisonOp, has_else: bool, n: nat, label: Seq<char>)
    ensures
        definitions(op.head(has_else, n), label) == if op == ComparisonOp::LE && label
            == then_label(n) {
            1nat
        } else {
            0nat
        },
{
    let head = op.head(has_else, n);
    let target = skip_target(has_else, n);
    let e = Seq::<InstrV>::empty();
    match op {
        ComparisonOp::LE => {
            let a = e.push(jump_if(Condition::C, then_label(n)));
            let b = a.push(jump_if(Condition::Z, then_label(n)));
            let c = b.push(jump_to(target));
            assert(head =~= c.push(label_def(then_label(n))));
            lemma_definitions_push(e, jump_if(Condition::C, then_label(n)), label);
            lemma_definitions_push(a, jump_if(Condition::Z, then_label(n)), label);
            lemma_definitions_push(b, jump_to(target), label);
            lemma_definitions_push(c, label_def(then_label(n)), label);
        },
        ComparisonOp::GT => {
            let a = e.push(jump_if(Condition::C, target));
            assert(head =~= a.push(jump_if(Condition::Z, target)));
            lemma_definitions_push(e, jump_if(Condition::C, target), label);
            lemma_definitions_push(a, jump_if(Condition::Z, target), label);
        },
        _ => {
            lemma_definitions_push(e, jump_if(op.skip_condition(), target), label);
        },
    }
}

/// The definitions in the code of a comparison of two computed values: the
/// block's own and those of its parts.
pub proof fn lemma_if_definitions(
    left: Seq<InstrV>,
    right: Seq<InstrV>,
    op: ComparisonOp,
    n: nat,
    then_code: Seq<InstrV>,
    else_code: Option<Seq<InstrV>>,
    label: Seq<char>,
)
    ensures
        definitions(if_code(left, right, op, n, then_code, else_code), label) == own_definitions(
            op == ComparisonOp::LE,
            else_code is Some,
            n,
            label,
        ) + definitions(left, label) + definitions(right, label) + definitions(then_code, label)
            + definitions_opt(else_code, label),
{
    let head = op.head(else_code is Some, n);
    lemma_head_definitions(op, else_code is Some, n, label);
    lemma_branch_definitions(head, op == ComparisonOp::LE, n, then_code, else_code, label);
    lemma_definitions_concat(
        (left.push(save_left()) + right).push(compare_saved()),
        branch_code(head, n, then_code, else_code),
        label,
    );
    lemma_definitions_push(left.push(save_left()) + right, compare_saved(), label);
    lemma_definitions_concat(left.push(save_left()), right, label);
    lemma_definitions_push(left, save_left(), label);
}

/// The definitions in the code of a comparison with a named constant.
pub proof fn lemma_if_const_definitions(
    value: Seq<InstrV>,
    const_label: Seq<char>,
    op: ComparisonOp,
    n: nat,
    then_code: Seq<InstrV>,
    else_code: Option<Seq<InstrV>>,
    label: Seq<char>,
)
    ensures
        definitions(if_const_code(value, const_label, op, n, then_code, else_code), label)
            == own_definitions(op == ComparisonOp::LE, else_code is Some, n, label) + definitions(
            value,
            label,
        ) + definitions(then_code, label) + definitions_opt(else_code, label),
{
    let head = op.head(else_code is Some, n);
    lemma_head_definitions(op, else_code is Some, n, label);
    lemma_branch_definitions(head, op == ComparisonOp::LE, n, then_code, else_code, label);
    lemma_definitions_concat(
        value.push(compare_const(const_label)),
        branch_code(head, n, then_code, else_code),
        label,
    );
    lemma_definitions_push(value, compare_const(const_label), label);
}

/// The definitions in the code of a comparison of the accumulator.
pub proof fn lemma_if_a_definitions(
    const_label: Seq<char>,
    op: ComparisonOp,
    n: nat,
    then_code: Seq<InstrV>,
    else_code: Option<Seq<InstrV>>,
    label: Seq<char>,
)
    ensures
        definitions(if_a_code(const_label, op, n, then_code, else_code), label)
            == own_definitions(op == ComparisonOp::LE, else_code is Some, n, label) + definitions(
            then_code,
            label,
        ) + definitions_opt(else_code, label),
{
    let head = op.head(else_code is Some, n);
    lemma_head_definitions(op, else_code is Some, n, label);
    lemma_branch_definitions(head, op == ComparisonOp::LE, n, then_code, else_code, label);
    let first = seq![compare_const(const_label)];
    lemma_definitions_concat(first, branch_code(head, n, then_code, else_code), label);
    lemma_definitions_push(Seq::<InstrV>::empty(), compare_const(const_label), label);
}

/// The definitions in the code of a test of a routine's flags.
pub proof fn lemma_if_call_definitions(
    setup: Option<Seq<InstrV>>,
    func_name: Seq<char>,
    condition: Condition,
    n: nat,
    then_code: Seq<InstrV>,
    else_code: Option<Seq<InstrV>>,
    label: Seq<char>,
)
    ensures
        definitions(if_call_code(setup, func_name, condition, n, then_code, else_code), label)
            == own_definitions(false, else_code is Some, n, label) + definitions_opt(setup, label)
            + definitions(then_code, label) + definitions_opt(else_code, label),
{
    let target = skip_target(else_code is Some, n);
    let head = simple_head(condition.negation(), target);
    lemma_definitions_push(Seq::<InstrV>::empty(), jump_if(condition.negation(), target), label);
    lemma_branch_definitions(head, false, n, then_code, else_code, label);
    let before = match setup {
        Some(code) => code,
        None => Seq::<InstrV>::empty(),
    };
    lemma_definitions_concat(
        before.push(call_instr(func_name)),
        branch_code(head, n, then_code, else_code),
        label,
    );
    lemma_definitions_push(before, call_instr(func_name), label);
}

/// No label twice, in an optional node: see [`lemma_labels_once`].
pub proof fn lemma_labels_once_opt(node: Option<Node>, c: nat, label: Seq<char>)
    requires
        leaves_plain_opt(node),
    ensures
        once_within(
            definitions_opt(lowered_opt(node, c), label),
            label,
            c,
            c + blocks_opt(node),
        ),
    decreases node, 1nat,
{
    match node {
        Some(n) => lemma_labels_once(n, c, label),
        None => {},
    }
}

/// No label twice, in a collection: see [`lemma_labels_once`].
pub proof fn lemma_labels_once_all(v: Vec<Node>, k: nat, c: nat, label: Seq<char>)
    requires
        k <= v.len(),
        leaves_plain_all(v, k),
    ensures
        once_within(
            definitions(lowered_all(v, k, c), label),
            label,
            c,
            c + blocks_all(v, k),
        ),
    decreases v, k,
{
    if k > 0 {
        let before = blocks_all(v, (k - 1) as nat);
        lemma_labels_once_all(v, (k - 1) as nat, c, label);
        lemma_labels_once(v[k - 1], c + before, label);
        lemma_definitions_concat(
            lowered_all(v, (k - 1) as nat, c),
            lowered(v[k - 1], c + before),
            label,
        );
        lemma_once_joined(
            label,
            definitions(lowered_all(v, (k - 1) as nat, c), label),
            c,
            c + before,
            definitions(lowered(v[k - 1], c + before), label),
            c + blocks_all(v, k),
        );
    }
}

/// No label twice, in a comparison of two computed values.
proof fn lemma_labels_once_if(b: If, c: nat, label: Seq<char>)
    requires
        leaves_plain(Node::If(Box::new(b))),
    ensures
        once_within(
            definitions(lowered(Node::If(Box::new(b)), c), label),
            label,
            c,
            c + blocks(Node::If(Box::new(b))),
        ),
    decreases b, 2nat,
{
    let c1 = c + 1;
    let c2 = c1 + blocks(b.left);
    let c3 = c2 + blocks(b.right);
    let c4 = c3 + blocks(b.then_branch);
    let c5 = c4 + blocks_opt(b.else_branch);
    let left = lowered(b.left, c1);
    let right = lowered(b.right, c2);
    let then_code = lowered(b.then_branch, c3);
    let else_code = lowered_opt(b.else_branch, c4);
    lemma_labels_once(b.left, c1, label);
    lemma_labels_once(b.right, c2, label);
    lemma_labels_once(b.then_branch, c3, label);
    lemma_labels_once_opt(b.else_branch, c4, label);
    lemma_if_definitions(left, right, b.op, c, then_code, else_code, label);
    lemma_own_definitions(b.op == ComparisonOp::LE, else_code is Some, c, label);
    let own = own_definitions(b.op == ComparisonOp::LE, else_code is Some, c, label);
    let dl = definitions(left, label);
    let dr = definitions(right, label);
    let dt = definitions(then_code, label);
    let de = definitions_opt(else_code, label);
    lemma_once_joined(label, own, c, c1, dl, c2);
    lemma_once_joined(label, own + dl, c, c2, dr, c3);
    lemma_once_joined(label, own + dl + dr, c, c3, dt, c4);
    lemma_once_joined(label, own + dl + dr + dt, c, c4, de, c5);
}

/// No label twice, in a comparison with a named constant.
proof fn lemma_labels_once_if_const(b: IfConst, c: nat, label: Seq<char>)
    requires
        leaves_plain(Node::IfConst(Box::new(b))),
    ensures
        once_within(
            definitions(lowered(Node::IfConst(Box::new(b)), c), label),
            label,
            c,
            c + blocks(Node::IfConst(Box::new(b))),
        ),
    decreases b, 2nat,
{
    let c1 = c + 1;
    let c2 = c1 + blocks(b.value);
    let c3 = c2 + blocks(b.then_branch);
    let c4 = c3 + blocks_opt(b.else_branch);
    let value = lowered(b.value, c1);
    let then_code = lowered(b.then_branch, c2);
    let else_code = lowered_opt(b.else_branch, c3);
    lemma_labels_once(b.value, c1, label);
    lemma_labels_once(b.then_branch, c2, label);
    lemma_labels_once_opt(b.else_branch, c3, label);
    lemma_if_const_definitions(value, b.const_label@, b.op, c, then_code, else_code, label);
    lemma_own_definitions(b.op == ComparisonOp::LE, else_code is Some, c, label);
    let own = own_definitions(b.op == ComparisonOp::LE, else_code is Some, c, label);
    let dv = definitions(value, label);
    let dt = definitions(then_code, label);
    let de = definitions_opt(else_code, label);
    lemma_once_joined(label, own, c, c1, dv, c2);
    lemma_once_joined(label, own + dv, c, c2, dt, c3);
    lemma_once_joined(label, own + dv + dt, c, c3, de, c4);
}

/// No label twice, in a comparison of the accumulator.
proof fn lemma_labels_once_if_a(b: IfA, c: nat, label: Seq<char>)
    requires
        leaves_plain(Node::IfA(Box::new(b))),
    ensures
        once_within(
            definitions(lowered(Node::IfA(Box::new(b)), c), label),
            label,
            c,
            c + blocks(Node::IfA(Box::new(b))),
        ),
    decreases b, 2nat,
{
    let c1 = c + 1;
    let c2 = c1 + blocks(b.then_branch);
    let c3 = c2 + blocks_opt(b.else_branch);
    let then_code = lowered(b.then_branch, c1);
    let else_code = lowered_opt(b.else_branch, c2);
    lemma_labels_once(b.then_branch, c1, label);
    lemma_labels_once_opt(b.else_branch, c2, label);
    lemma_if_a_definitions(b.const_label@, b.op, c, then_code, else_code, label);
    lemma_own_definitions(b.op == ComparisonOp::LE, else_code is Some, c, label);
    let own = own_definitions(b.op == ComparisonOp::LE, else_code is Some, c, label);
    let dt = definitions(then_code, label);
    let de = definitions_opt(else_code, label);
    lemma_once_joined(label, own, c, c1, dt, c2);
    lemma_once_joined(label, own + dt, c, c2, de, c3);
}

/// No label twice, in a test of a routine's flags.
proof fn lemma_labels_once_if_call(b: IfCall, c: nat, label: Seq<char>)
    requires
        leaves_plain(Node::IfCall(Box::new(b))),
    ensures
        once_within(
            definitions(lowered(Node::IfCall(Box::new(b)), c), label),
            label,
            c,
            c + blocks(Node::IfCall(Box::new(b))),
        ),
    decreases b, 2nat,
{
    let c1 = c + 1;
    let c2 = c1 + blocks_opt(b.setup);
    let c3 = c2 + blocks(b.then_branch);
    let c4 = c3 + blocks_opt(b.else_branch);
    let setup = lowered_opt(b.setup, c1);
    let then_code = lowered(b.then_branch, c2);
    let else_code = lowered_opt(b.else_branch, c3);
    lemma_labels_once_opt(b.setup, c1, label);
    lemma_labels_once(b.then_branch, c2, label);
    lemma_labels_once_opt(b.else_branch, c3, label);
    lemma_if_call_definitions(setup, b.func_name@, b.condition, c, then_code, else_code, label);
    lemma_own_definitions(false, else_code is Some, c, label);
    let own = own_definitions(false, else_code is Some, c, label);
    let ds = definitions_opt(setup, label);
    let dt = definitions(then_code, label);
    let de = definitions_opt(else_code, label);
    lemma_once_joined(label, own, c, c1, ds, c2);
    lemma_once_joined(label, own + ds, c, c2, dt, c3);
    lemma_once_joined(label, own + ds + dt, c, c3, de, c4);
}

/// Label uniqueness: in the lowered code of a tree whose raw instructions
/// define no label, no label is defined twice, and every label that is
/// defined is a generated one, stamped with a counter value that the
/// lowering took: a value from `c` up to, and excluding, `c` plus the
/// number of blocks.
pub proof fn lemma_labels_once(node: Node, c: nat, label: Seq<char>)
    requires
        leaves_plain(node),
    ensures
        once_within(definitions(lowered(node, c), label), label, c, c + blocks(node)),
    decreases node, 0nat,
{
    match node {
        Node::Raw(v) => lemma_plain_defines_nothing(v.deep_view(), label),
        Node::Flat(vv) => lemma_plain_defines_nothing(vv.deep_view().flatten(), label),
        Node::Many(v) => lemma_labels_once_all(v, v.len() as nat, c, label),
        Node::Call(call) => {
            lemma_plain_defines_nothing(call.args.deep_view(), label);
            lemma_definitions_push(call.args.deep_view(), call_instr(call.func_name@), label);
        },
        Node::Op(op) => lemma_plain_defines_nothing(op.0.deep_view(), label),
        Node::If(b) => lemma_labels_once_if(*b, c, label),
        Node::IfConst(b) => lemma_labels_once_if_const(*b, c, label),
        Node::IfA(b) => lemma_labels_once_if_a(*b, c, label),
        Node::IfCall(b) => lemma_labels_once_if_call(*b, c, label),
    }
}

/// Code with stamps from a range defines no generated label with a stamp
/// from outside the range.
pub proof fn lemma_none_outside(label: Seq<char>, d: nat, lo: nat, hi: nat, k: nat)
    requires
        once_within(d, label, lo, hi),
        exists|role: LabelRole| label == label_name(role, k),
        !(lo <= k < hi),
    ensures
        d == 0,
{
    if d >= 1 {
        let role = choose|role: LabelRole| label == label_name(role, k);
        lemma_stamp_ranges(label, lo, hi, k, k + 1);
    }
}

/// One end label for every stamp, in an optional node: see
/// [`lemma_end_label_once`].
pub proof fn lemma_end_label_once_opt(node: Option<Node>, c: nat, k: nat)
    requires
        leaves_plain_opt(node),
        c <= k < c + blocks_opt(node),
    ensures
        definitions_opt(lowered_opt(node, c), end_label(k)) == 1,
    decreases node, 1nat,
{
    match node {
        Some(n) => lemma_end_label_once(n, c, k),
        None => {},
    }
}

/// One end label for every stamp, in a collection: see
/// [`lemma_end_label_once`].
pub proof fn lemma_end_label_once_all(v: Vec<Node>, n: nat, c: nat, k: nat)
    requires
        n <= v.len(),
        leaves_plain_all(v, n),
        c <= k < c + blocks_all(v, n),
    ensures
        definitions(lowered_all(v, n, c), end_label(k)) == 1,
    decreases v, n,
{
    if n > 0 {
        let label = end_label(k);
        let before = blocks_all(v, (n - 1) as nat);
        let first = lowered_all(v, (n - 1) as nat, c);
        let last = lowered(v[n - 1], c + before);
        lemma_definitions_concat(first, last, label);
        lemma_labels_once_all(v, (n - 1) as nat, c, label);
        lemma_labels_once(v[n - 1], c + before, label);
        if k < c + before {
            lemma_end_label_once_all(v, (n - 1) as nat, c, k);
            lemma_none_outside(
                label,
                definitions(last, label),
                c + before,
                c + before + blocks(v[n - 1]),
                k,
            );
        } else {
            lemma_end_label_once(v[n - 1], c + before, k);
            lemma_none_outside(label, definitions(first, label), c, c + before, k);
        }
    }
}

/// One end label for every stamp, in a comparison of two computed values.
proof fn lemma_end_label_once_if(b: If, c: nat, k: nat)
    requires
        leaves_plain(Node::If(Box::new(b))),
        c <= k < c + blocks(Node::If(Box::new(b))),
    ensures
        definitions(lowered(Node::If(Box::new(b)), c), end_label(k)) == 1,
    decreases b, 2nat,
{
    let label = end_label(k);
    let c1 = c + 1;
    let c2 = c1 + blocks(b.left);
    let c3 = c2 + blocks(b.right);
    let c4 = c3 + blocks(b.then_branch);
    let c5 = c4 + blocks_opt(b.else_branch);
    let left = lowered(b.left, c1);
    let right = lowered(b.right, c2);
    let then_code = lowered(b.then_branch, c3);
    let else_code = lowered_opt(b.else_branch, c4);
    let has_then = b.op == ComparisonOp::LE;
    lemma_if_definitions(left, right, b.op, c, then_code, else_code, label);
    lemma_own_definitions(has_then, else_code is Some, c, label);
    lemma_labels_once(b.left, c1, label);
    lemma_labels_once(b.right, c2, label);
    lemma_labels_once(b.then_branch, c3, label);
    lemma_labels_once_opt(b.else_branch, c4, label);
    let own = own_definitions(has_then, else_code is Some, c, label);
    if k != c {
        lemma_none_outside(label, own, c, c1, k);
    }
    if c1 <= k < c2 {
        lemma_end_label_once(b.left, c1, k);
    } else {
        lemma_none_outside(label, definitions(left, label), c1, c2, k);
    }
    if c2 <= k < c3 {
        lemma_end_label_once(b.right, c2, k);
    } else {
        lemma_none_outside(label, definitions(right, label), c2, c3, k);
    }
    if c3 <= k < c4 {
        lemma_end_label_once(b.then_branch, c3, k);
    } else {
        lemma_none_outside(label, definitions(then_code, label), c3, c4, k);
    }
    if c4 <= k < c5 {
        lemma_end_label_once_opt(b.else_branch, c4, k);
    } else {
        lemma_none_outside(label, definitions_opt(else_code, label), c4, c5, k);
    }
}

/// One end label for every stamp, in a comparison with a named constant.
proof fn lemma_end_label_once_if_const(b: IfConst, c: nat, k: nat)
    requires
        leaves_plain(Node::IfConst(Box::new(b))),
        c <= k < c + blocks(Node::IfConst(Box::new(b))),
    ensures
        definitions(lowered(Node::IfConst(Box::new(b)), c), end_label(k)) == 1,
    decreases b, 2nat,
{
    let label = end_label(k);
    let c1 = c + 1;
    let c2 = c1 + blocks(b.value);
    let c3 = c2 + blocks(b.then_branch);
    let c4 = c3 + blocks_opt(b.else_branch);
    let value = lowered(b.value, c1);
    let then_code = lowered(b.then_branch, c2);
    let else_code = lowered_opt(b.else_branch, c3);
    let has_then = b.op == ComparisonOp::LE;
    lemma_if_const_definitions(value, b.const_label@, b.op, c, then_code, else_code, label);
    lemma_own_definitions(has_then, else_code is Some, c, label);
    lemma_labels_once(b.value, c1, label);
    lemma_labels_once(b.then_branch, c2, label);
    lemma_labels_once_opt(b.else_branch, c3, label);
    let own = own_definitions(has_then, else_code is Some, c, label);
    if k != c {
        lemma_none_outside(label, own, c, c1, k);
    }
    if c1 <= k < c2 {
        lemma_end_label_once(b.value, c1, k);
    } else {
        lemma_none_outside(label, definitions(value, label), c1, c2, k);
    }
    if c2 <= k < c3 {
        lemma_end_label_once(b.then_branch, c2, k);
    } else {
        lemma_none_outside(label, definitions(then_code, label), c2, c3, k);
    }
    if c3 <= k < c4 {
        lemma_end_label_once_opt(b.else_branch, c3, k);
    } else {
        lemma_none_outside(label, definitions_opt(else_code, label), c3, c4, k);
    }
}

/// One end label for every stamp, in a comparison of the accumulator.
proof fn lemma_end_label_once_if_a(b: IfA, c: nat, k: nat)
    requires
        leaves_plain(Node::IfA(Box::new(b))),
        c <= k < c + blocks(Node::IfA(Box::new(b))),
    ensures
        definitions(lowered(Node::IfA(Box::new(b)), c), end_label(k)) == 1,
    decreases b, 2nat,
{
    let label = end_label(k);
    let c1 = c + 1;
    let c2 = c1 + blocks(b.then_branch);
    let c3 = c2 + blocks_opt(b.else_branch);
    let then_code = lowered(b.then_branch, c1);
    let else_code = lowered_opt(b.else_branch, c2);
    let has_then = b.op == ComparisonOp::LE;
    lemma_if_a_definitions(b.const_label@, b.op, c, then_code, else_code, label);
    lemma_own_definitions(has_then, else_code is Some, c, label);
    lemma_labels_once(b.then_branch, c1, label);
    lemma_labels_once_opt(b.else_branch, c2, label);
    let own = own_definitions(has_then, else_code is Some, c, label);
    if k != c {
        lemma_none_outside(label, own, c, c1, k);
    }
    if c1 <= k < c2 {
        lemma_end_label_once(b.then_branch, c1, k);
    } else {
        lemma_none_outside(label, definitions(then_code, label), c1, c2, k);
    }
    if c2 <= k < c3 {
        lemma_end_label_once_opt(b.else_branch, c2, k);
    } else {
        lemma_none_outside(label, definitions_opt(else_code, label), c2, c3, k);
    }
}

/// One end label for every stamp, in a test of a routine's flags.
proof fn lemma_end_label_once_if_call(b: IfCall, c: nat, k: nat)
    requires
        leaves_plain(Node::IfCall(Box::new(b))),
        c <= k < c + blocks(Node::IfCall(Box::new(b))),
    ensures
        definitions(lowered(Node::IfCall(Box::new(b)), c), end_label(k)) == 1,
    decreases b, 2nat,
{
    let label = end_label(k);
    let c1 = c + 1;
    let c2 = c1 + blocks_opt(b.setup);
    let c3 = c2 + blocks(b.then_branch);
    let c4 = c3 + blocks_opt(b.else_branch);
    let setup = lowered_opt(b.setup, c1);
    let then_code = lowered(b.then_branch, c2);
    let else_code = lowered_opt(b.else_branch, c3);
    lemma_if_call_definitions(setup, b.func_name@, b.condition, c, then_code, else_code, label);
    lemma_own_definitions(false, else_code is Some, c, label);
    lemma_labels_once_opt(b.setup, c1, label);
    lemma_labels_once(b.then_branch, c2, label);
    lemma_labels_once_opt(b.else_branch, c3, label);
    let own = own_definitions(false, else_code is Some, c, label);
    if k != c {
        lemma_none_outside(label, own, c, c1, k);
    }
    if c1 <= k < c2 {
        lemma_end_label_once_opt(b.setup, c1, k);
    } else {
        lemma_none_outside(label, definitions_opt(setup, label), c1, c2, k);
    }
    if c2 <= k < c3 {
        lemma_end_label_once(b.then_branch, c2, k);
    } else {
        lemma_none_outside(label, definitions(then_code, label), c2, c3, k);
    }
    if c3 <= k < c4 {
        lemma_end_label_once_opt(b.else_branch, c3, k);
    } else {
        lemma_none_outside(label, definitions_opt(else_code, label), c3, c4, k);
    }
}

/// Every counter value is used once: lowering a tree with `N` blocks from
/// the counter value `c` takes the `N` values from `c` on, and each of them
/// stamps exactly one block, whose end label is defined exactly once in
/// the lowered code. The raw instructions of the tree must define no
/// label.
pub proof fn lemma_end_label_once(node: Node, c: nat, k: nat)
    requires
        leaves_plain(node),
        c <= k < c + blocks(node),
    ensures
        definitions(lowered(node, c), end_label(k)) == 1,
    decreases node, 0nat,
{
    match node {
        Node::Many(v) => lemma_end_label_once_all(v, v.len() as nat, c, k),
        Node::If(b) => lemma_end_label_once_if(*b, c, k),
        Node::IfConst(b) => lemma_end_label_once_if_const(*b, c, k),
        Node::IfA(b) => lemma_end_label_once_if_a(*b, c, k),
        Node::IfCall(b) => lemma_end_label_once_if_call(*b, c, k),
        _ => {},
    }
}

/// Whether a block has an else-branch; `false` for a node that is no
/// block.
pub open spec fn has_else(node: Node) -> bool {
    match node {
        Node::If(b) => b.else_branch is Some,
        Node::IfConst(b) => b.else_branch is Some,
        Node::IfA(b) => b.else_branch is Some,
        Node::IfCall(b) => b.else_branch is Some,
        _ => false,
    }
}

/// Whether a block jumps to its then-branch, which then needs a label:
/// only a comparison "less than or equal" does.
pub open spec fn has_then(node: Node) -> bool {
    match node {
        Node::If(b) => b.op == ComparisonOp::LE,
        Node::IfConst(b) => b.op == ComparisonOp::LE,
        Node::IfA(b) => b.op == ComparisonOp::LE,
        _ => false,
    }
}

/// The labels of a block carry its stamp: in the lowered code of a block
/// that is stamped `c`, the end label with the stamp `c` is defined exactly
/// once, the else label with that stamp exactly once if the block has an
/// else-branch and not at all if it has none, and the then label exactly
/// once if the block jumps to its then-branch and not at all if it does
/// not. The raw instructions of the block must define no label.
pub proof fn lemma_own_labels(node: Node, c: nat, role: LabelRole)
    requires
        is_block(node),
        leaves_plain(node),
    ensures
        definitions(lowered(node, c), label_name(role, c)) == match role {
            LabelRole::End => 1nat,
            LabelRole::Else => if has_else(node) {
                1nat
            } else {
                0nat
            },
            LabelRole::Then => if has_then(node) {
                1nat
            } else {
                0nat
            },
        },
{
    let label = label_name(role, c);
    lemma_block_labels_distinct(c);
    let c1 = c + 1;
    match node {
        Node::If(b) => {
            let c2 = c1 + blocks(b.left);
            let c3 = c2 + blocks(b.right);
            let c4 = c3 + blocks(b.then_branch);
            let c5 = c4 + blocks_opt(b.else_branch);
            let left = lowered(b.left, c1);
            let right = lowered(b.right, c2);
            let then_code = lowered(b.then_branch, c3);
            let else_code = lowered_opt(b.else_branch, c4);
            lemma_if_definitions(left, right, b.op, c, then_code, else_code, label);
            lemma_labels_once(b.left, c1, label);
            lemma_labels_once(b.right, c2, label);
            lemma_labels_once(b.then_branch, c3, label);
            lemma_labels_once_opt(b.else_branch, c4, label);
            lemma_none_outside(label, definitions(left, label), c1, c2, c);
            lemma_none_outside(label, definitions(right, label), c2, c3, c);
            lemma_none_outside(label, definitions(then_code, label), c3, c4, c);
            lemma_none_outside(label, definitions_opt(else_code, label), c4, c5, c);
        },
        Node::IfConst(b) => {
            let c2 = c1 + blocks(b.value);
            let c3 = c2 + blocks(b.then_branch);
            let c4 = c3 + blocks_opt(b.else_branch);
            let value = lowered(b.value, c1);
            let then_code = lowered(b.then_branch, c2);
            let else_code = lowered_opt(b.else_branch, c3);
            lemma_if_const_definitions(
                value,
                b.const_label@,
                b.op,
                c,
                then_code,
                else_code,
                label,
            );
            lemma_labels_once(b.value, c1, label);
            lemma_labels_once(b.then_branch, c2, label);
            lemma_labels_once_opt(b.else_branch, c3, label);
            lemma_none_outside(label, definitions(value, label), c1, c2, c);
            lemma_none_outside(label, definitions(then_code, label), c2, c3, c);
            lemma_none_outside(label, definitions_opt(else_code, label), c3, c4, c);
        },
        Node::IfA(b) => {
            let c2 = c1 + blocks(b.then_branch);
            let c3 = c2 + blocks_opt(b.else_branch);
            let then_code = lowered(b.then_branch, c1);
            let else_code = lowered_opt(b.else_branch, c2);
            lemma_if_a_definitions(b.const_label@, b.op, c, then_code, else_code, label);
            lemma_labels_once(b.then_branch, c1, label);
            lemma_labels_once_opt(b.else_branch, c2, label);
            lemma_none_outside(label, definitions(then_code, label), c1, c2, c);
            lemma_none_outside(label, definitions_opt(else_code, label), c2, c3, c);
        },
        Node::IfCall(b) => {
            let c2 = c1 + blocks_opt(b.setup);
            let c3 = c2 + blocks(b.then_branch);
            let c4 = c3 + blocks_opt(b.else_branch);
            let setup = lowered_opt(b.setup, c1);
            let then_code = lowered(b.then_branch, c2);
            let else_code = lowered_opt(b.else_branch, c3);
            lemma_if_call_definitions(
                setup,
                b.func_name@,
                b.condition,
                c,
                then_code,
                else_code,
                label,
            );
            lemma_labels_once_opt(b.setup, c1, label);
            lemma_labels_once(b.then_branch, c2, label);
            lemma_labels_once_opt(b.else_branch, c3, label);
            lemma_none_outside(label, definitions_opt(setup, label), c1, c2, c);
            lemma_none_outside(label, definitions(then_code, label), c2, c3, c);
            lemma_none_outside(label, definitions_opt(else_code, label), c3, c4, c);
        },
        _ => {},
    }
}

/// Blocks with different stamps share no label, so the labels of any two
/// blocks that were lowered from one counter are different texts.
pub proof fn lemma_stamps_separate_labels(m: nat, n: nat, r1: LabelRole, r2: LabelRole)
    requires
        m != n,
    ensures
        label_name(r1, m) != label_name(r2, n),
{
    if label_name(r1, m) == label_name(r2, n) {
        lemma_label_name_injective(r1, m, r2, n);
    }
}

} // verus!
