//! Emittable values: the tree of things that lower to instructions.
//!
//! The kinds of node are fixed: raw instruction lists, lists of lists, call
//! wrappers, arithmetic wrappers, the four conditional blocks, and ordered
//! collections of these. Lowering takes a node by value, so a node cannot be
//! lowered twice.

use super::flow_if::{
    If, IfA, IfCall, IfConst, assemble_if, assemble_if_a, assemble_if_call, assemble_if_const,
    if_a_code, if_call_code, if_code, if_const_code,
};
use super::operation::Op;
use crate::gb_asm::{Instr, InstrV, JumpTarget, JumpTargetV};
use vstd::prelude::*;
use vstd::string::StringExecFns;

verus! {

/// A function call with the instructions that set up its arguments.
pub struct Call {
    pub func_name: String,
    pub args: Vec<Instr>,
}

/// A node of the tree that is lowered to instructions.
pub enum Node {
    /// Instructions that are emitted as they are.
    Raw(Vec<Instr>),
    /// Lists of instructions that are emitted one after the other.
    Flat(Vec<Vec<Instr>>),
    /// Nodes that are lowered one after the other, sharing the counter.
    Many(Vec<Node>),
    /// Argument setup followed by a call.
    Call(Call),
    /// Instructions with an arithmetic step applied.
    Op(Op),
    /// A comparison of two computed values.
    If(Box<If>),
    /// A comparison of a computed value with a named constant.
    IfConst(Box<IfConst>),
    /// A comparison of the accumulator with a named constant.
    IfA(Box<IfA>),
    /// A test of the flags that a routine returns.
    IfCall(Box<IfCall>),
}

/// The instruction that calls the routine `name`.
pub open spec fn call_instr(name: Seq<char>) -> InstrV {
    InstrV::Call { target: JumpTargetV::Label(name) }
}

/// The number of conditional blocks in an optional node.
pub open spec fn blocks_opt(node: Option<Node>) -> nat
    decreases node, 0nat,
{
    match node {
        Some(n) => blocks(n),
        None => 0,
    }
}

/// The number of conditional blocks in a tree: one for each block, wherever
/// it stands. Lowering the tree takes this many counter values.
pub open spec fn blocks(node: Node) -> nat
    decreases node, 0nat,
{
    match node {
        Node::Raw(_) => 0,
        Node::Flat(_) => 0,
        Node::Many(v) => blocks_all(v, v.len() as nat),
        Node::Call(_) => 0,
        Node::Op(_) => 0,
        Node::If(b) => 1 + blocks(b.left) + blocks(b.right) + blocks(b.then_branch) + blocks_opt(
            b.else_branch,
        ),
        Node::IfConst(b) => 1 + blocks(b.value) + blocks(b.then_branch) + blocks_opt(
            b.else_branch,
        ),
        Node::IfA(b) => 1 + blocks(b.then_branch) + blocks_opt(b.else_branch),
        Node::IfCall(b) => 1 + blocks_opt(b.setup) + blocks(b.then_branch) + blocks_opt(
            b.else_branch,
        ),
    }
}

/// The number of conditional blocks in the first `k` nodes of a collection.
pub open spec fn blocks_all(v: Vec<Node>, k: nat) -> nat
    decreases v, k,
{
    if k == 0 || k > v.len() {
        0
    } else {
        blocks_all(v, (k - 1) as nat) + blocks(v[k - 1])
    }
}

/// The instructions of an optional node; `None` where there is no node.
pub open spec fn lowered_opt(node: Option<Node>, c: nat) -> Option<Seq<InstrV>>
    decreases node, 0nat,
{
    match node {
        Some(n) => Some(lowered(n, c)),
        None => None,
    }
}

/// The instructions that a tree lowers to when the counter stands at `c`.
///
/// A conditional block takes the value `c` for its own labels. Its parts are
/// then lowered in the order operands, then-branch, else-branch, each
/// starting where the one before left the counter.
pub open spec fn lowered(node: Node, c: nat) -> Seq<InstrV>
    decreases node, 0nat,
{
    match node {
        Node::Raw(v) => v.deep_view(),
        Node::Flat(vv) => vv.deep_view().flatten(),
        Node::Many(v) => lowered_all(v, v.len() as nat, c),
        Node::Call(call) => call.args.deep_view().push(call_instr(call.func_name@)),
        Node::Op(op) => op.0.deep_view(),
        Node::If(b) => {
            let c1 = c + 1;
            let c2 = c1 + blocks(b.left);
            let c3 = c2 + blocks(b.right);
            let c4 = c3 + blocks(b.then_branch);
            if_code(
                lowered(b.left, c1),
                lowered(b.right, c2),
                b.op,
                c,
                lowered(b.then_branch, c3),
                lowered_opt(b.else_branch, c4),
            )
        },
        Node::IfConst(b) => {
            let c1 = c + 1;
            let c2 = c1 + blocks(b.value);
            let c3 = c2 + blocks(b.then_branch);
            if_const_code(
                lowered(b.value, c1),
                b.const_label@,
                b.op,
                c,
                lowered(b.then_branch, c2),
                lowered_opt(b.else_branch, c3),
            )
        },
        Node::IfA(b) => {
            let c1 = c + 1;
            let c2 = c1 + blocks(b.then_branch);
            if_a_code(
                b.const_label@,
                b.op,
                c,
                lowered(b.then_branch, c1),
                lowered_opt(b.else_branch, c2),
            )
        },
        Node::IfCall(b) => {
            let c1 = c + 1;
            let c2 = c1 + blocks_opt(b.setup);
            let c3 = c2 + blocks(b.then_branch);
            if_call_code(
                lowered_opt(b.setup, c1),
                b.func_name@,
                b.condition,
                c,
                lowered(b.then_branch, c2),
                lowered_opt(b.else_branch, c3),
            )
        },
    }
}

/// The instructions that the first `k` nodes of a collection lower to, one
/// node after the other, when the counter stands at `c` before the first.
pub open spec fn lowered_all(v: Vec<Node>, k: nat, c: nat) -> Seq<InstrV>
    decreases v, k,
{
    if k == 0 || k > v.len() {
        Seq::<InstrV>::empty()
    } else {
        lowered_all(v, (k - 1) as nat, c) + lowered(v[k - 1], c + blocks_all(v, (k - 1) as nat))
    }
}

/// Whether a node is a conditional block.
pub open spec fn is_block(node: Node) -> bool {
    node is If || node is IfConst || node is IfA || node is IfCall
}

/// The number of conditional blocks inside the parts of a block: its
/// operands, its then-branch and its else-branch. None for a node that is
/// no block.
pub open spec fn inner_blocks(node: Node) -> nat {
    match node {
        Node::If(b) => blocks(b.left) + blocks(b.right) + blocks(b.then_branch) + blocks_opt(
            b.else_branch,
        ),
        Node::IfConst(b) => blocks(b.value) + blocks(b.then_branch) + blocks_opt(b.else_branch),
        Node::IfA(b) => blocks(b.then_branch) + blocks_opt(b.else_branch),
        Node::IfCall(b) => blocks_opt(b.setup) + blocks(b.then_branch) + blocks_opt(
            b.else_branch,
        ),
        _ => 0,
    }
}

/// Counter monotonicity: lowering a conditional block advances the counter
/// by exactly one for the block itself, however many blocks stand inside
/// its parts, and by one more for each of those.
pub proof fn lemma_block_takes_one_value(node: Node)
    requires
        is_block(node),
    ensures
        blocks(node) == 1 + inner_blocks(node),
{
}

/// A longer prefix of a collection holds at least as many blocks.
pub proof fn lemma_blocks_all_monotonic(v: Vec<Node>, j: nat, k: nat)
    requires
        j <= k <= v.len(),
    ensures
        blocks_all(v, j) <= blocks_all(v, k),
    decreases k,
{
    if j < k {
        lemma_blocks_all_monotonic(v, j, (k - 1) as nat);
    }
}

/// Anything that lowers to instructions.
///
/// `emit` takes the value itself: what was lowered once is gone, and cannot
/// be lowered again with stale or doubled output.
pub trait Emittable: Sized {
    /// The tree that this value stands for.
    spec fn node(self) -> Node;

    /// The value as a node of the tree.
    fn into_node(self) -> (n: Node)
        ensures
            n == self.node(),
    ;

    /// Lowers the value. The counter hands out the stamps of the generated
    /// labels: it advances by one for every conditional block in the tree.
    fn emit(self, counter: &mut usize) -> (out: Vec<Instr>)
        requires
            *old(counter) + blocks(self.node()) <= usize::MAX,
        ensures
            out.deep_view() == lowered(self.node(), *old(counter) as nat),
            *final(counter) == *old(counter) + blocks(self.node()),
    ;
}

impl Call {
    /// A call of `func_name` after the instructions that set up its
    /// arguments.
    pub fn with_args(func_name: &str, args: Vec<Instr>) -> (r: Self)
        ensures
            r.func_name@ == func_name@,
            r.args == args,
    {
        Call { func_name: String::from_str(func_name), args }
    }

    /// A call of `func_name` without arguments.
    pub fn new(func_name: &str) -> (r: Self)
        ensures
            r.func_name@ == func_name@,
            r.args@ == Seq::<Instr>::empty(),
    {
        Call { func_name: String::from_str(func_name), args: Vec::new() }
    }
}

/// The instructions of a call wrapper: the argument setup, then the call.
fn lower_call(call: Call) -> (out: Vec<Instr>)
    ensures
        out.deep_view() == call.args.deep_view().push(call_instr(call.func_name@)),
{
    let mut out = call.args;
    let instr = Instr::Call { target: JumpTarget::Label(call.func_name) };
    out.push(instr);
    out
}

/// The lists of a list of lists, one after the other.
fn lower_flat(parts: Vec<Vec<Instr>>) -> (out: Vec<Instr>)
    ensures
        out.deep_view() == parts.deep_view().flatten(),
{
    let mut out: Vec<Instr> = Vec::new();
    let ghost all = parts.deep_view();
    for part in it: parts
        invariant
            it.seq() == parts@,
            all == parts.deep_view(),
            out.deep_view() == all.take(it.index() as int).flatten_alt(),
    {
        let ghost i = it.index() as int;
        let mut part = part;
        out.append(&mut part);
        proof {
            assert(all.take(i + 1).drop_last() =~= all.take(i));
        }
    }
    proof {
        assert(all.take(parts.len() as int) =~= all);
        all.lemma_flatten_and_flatten_alt_are_equivalent();
    }
    out
}

/// Lowers an optional node; the counter stays where it is when there is
/// none.
fn lower_opt(node: Option<Node>, counter: &mut usize) -> (out: Option<Vec<Instr>>)
    requires
        *old(counter) + blocks_opt(node) <= usize::MAX,
    ensures
        out.deep_view() == lowered_opt(node, *old(counter) as nat),
        *final(counter) == *old(counter) + blocks_opt(node),
    decreases node, 1nat,
{
    match node {
        Some(n) => Some(lower(n, counter)),
        None => None,
    }
}

/// Lowers the members of a collection in order, threading the counter
/// through them.
fn lower_many(v: Vec<Node>, counter: &mut usize) -> (out: Vec<Instr>)
    requires
        *old(counter) + blocks_all(v, v.len() as nat) <= usize::MAX,
    ensures
        out.deep_view() == lowered_all(v, v.len() as nat, *old(counter) as nat),
        *final(counter) == *old(counter) + blocks_all(v, v.len() as nat),
    decreases v, v.len() + 1,
{
    let mut out: Vec<Instr> = Vec::new();
    let ghost start = *counter as nat;
    let ghost items = v;
    for x in it: v
        invariant
            it.seq() == items@,
            *counter == start + blocks_all(items, it.index() as nat),
            start + blocks_all(items, items.len() as nat) <= usize::MAX,
            out.deep_view() == lowered_all(items, it.index() as nat, start),
    {
        let ghost i = it.index() as nat;
        proof {
            lemma_blocks_all_monotonic(items, i + 1, items.len() as nat);
        }
        let mut part = lower(x, counter);
        out.append(&mut part);
    }
    out
}

/// Lowers a comparison of two computed values.
fn lower_if(block: If, counter: &mut usize) -> (out: Vec<Instr>)
    requires
        *old(counter) + blocks(Node::If(Box::new(block))) <= usize::MAX,
    ensures
        out.deep_view() == lowered(Node::If(Box::new(block)), *old(counter) as nat),
        *final(counter) == *old(counter) + blocks(Node::If(Box::new(block))),
    decreases block, 2nat,
{
    let n: usize = *counter;
    *counter = n + 1;
    let left = lower(block.left, counter);
    let right = lower(block.right, counter);
    let then_code = lower(block.then_branch, counter);
    let else_code = lower_opt(block.else_branch, counter);
    assemble_if(left, right, block.op, n, then_code, else_code)
}

/// Lowers a comparison of a computed value with a named constant.
fn lower_if_const(block: IfConst, counter: &mut usize) -> (out: Vec<Instr>)
    requires
        *old(counter) + blocks(Node::IfConst(Box::new(block))) <= usize::MAX,
    ensures
        out.deep_view() == lowered(Node::IfConst(Box::new(block)), *old(counter) as nat),
        *final(counter) == *old(counter) + blocks(Node::IfConst(Box::new(block))),
    decreases block, 2nat,
{
    let n: usize = *counter;
    *counter = n + 1;
    let value = lower(block.value, counter);
    let then_code = lower(block.then_branch, counter);
    let else_code = lower_opt(block.else_branch, counter);
    assemble_if_const(value, block.const_label, block.op, n, then_code, else_code)
}

/// Lowers a comparison of the accumulator with a named constant.
fn lower_if_a(block: IfA, counter: &mut usize) -> (out: Vec<Instr>)
    requires
        *old(counter) + blocks(Node::IfA(Box::new(block))) <= usize::MAX,
    ensures
        out.deep_view() == lowered(Node::IfA(Box::new(block)), *old(counter) as nat),
        *final(counter) == *old(counter) + blocks(Node::IfA(Box::new(block))),
    decreases block, 2nat,
{
    let n: usize = *counter;
    *counter = n + 1;
    let then_code = lower(block.then_branch, counter);
    let else_code = lower_opt(block.else_branch, counter);
    assemble_if_a(block.const_label, block.op, n, then_code, else_code)
}

/// Lowers a test of the flags that a routine returns.
fn lower_if_call(block: IfCall, counter: &mut usize) -> (out: Vec<Instr>)
    requires
        *old(counter) + blocks(Node::IfCall(Box::new(block))) <= usize::MAX,
    ensures
        out.deep_view() == lowered(Node::IfCall(Box::new(block)), *old(counter) as nat),
        *final(counter) == *old(counter) + blocks(Node::IfCall(Box::new(block))),
    decreases block, 2nat,
{
    let n: usize = *counter;
    *counter = n + 1;
    let setup = lower_opt(block.setup, counter);
    let then_code = lower(block.then_branch, counter);
    let else_code = lower_opt(block.else_branch, counter);
    assemble_if_call(setup, block.func_name, block.condition, n, then_code, else_code)
}

/// Lowers a tree, taking one counter value for each conditional block in it.
pub fn lower(node: Node, counter: &mut usize) -> (out: Vec<Instr>)
    requires
        *old(counter) + blocks(node) <= usize::MAX,
    ensures
        out.deep_view() == lowered(node, *old(counter) as nat),
        *final(counter) == *old(counter) + blocks(node),
    decreases node, 0nat,
{
    match node {
        Node::Raw(v) => v,
        Node::Flat(vv) => lower_flat(vv),
        Node::Many(v) => lower_many(v, counter),
        Node::Call(call) => lower_call(call),
        Node::Op(op) => op.0,
        Node::If(b) => lower_if(*b, counter),
        Node::IfConst(b) => lower_if_const(*b, counter),
        Node::IfA(b) => lower_if_a(*b, counter),
        Node::IfCall(b) => lower_if_call(*b, counter),
    }
}

impl Emittable for Node {
    open spec fn node(self) -> Node {
        self
    }

    fn into_node(self) -> (n: Node) {
        self
    }

    fn emit(self, counter: &mut usize) -> (out: Vec<Instr>) {
        lower(self, counter)
    }
}

impl Emittable for Call {
    open spec fn node(self) -> Node {
        Node::Call(self)
    }

    fn into_node(self) -> (n: Node) {
        Node::Call(self)
    }

    fn emit(self, counter: &mut usize) -> (out: Vec<Instr>) {
        lower(Node::Call(self), counter)
    }
}

/// Raw instructions lower to themselves and leave the counter alone.
impl Emittable for Vec<Instr> {
    open spec fn node(self) -> Node {
        Node::Raw(self)
    }

    fn into_node(self) -> (n: Node) {
        Node::Raw(self)
    }

    fn emit(self, counter: &mut usize) -> (out: Vec<Instr>) {
        lower(Node::Raw(self), counter)
    }
}

/// A list of lists lowers to its lists in order and leaves the counter alone.
impl Emittable for Vec<Vec<Instr>> {
    open spec fn node(self) -> Node {
        Node::Flat(self)
    }

    fn into_node(self) -> (n: Node) {
        Node::Flat(self)
    }

    fn emit(self, counter: &mut usize) -> (out: Vec<Instr>) {
        lower(Node::Flat(self), counter)
    }
}

/// A collection of nodes lowers to its members in order. The members share
/// the counter, so no two of them are given the same value.
impl Emittable for Vec<Node> {
    open spec fn node(self) -> Node {
        Node::Many(self)
    }

    fn into_node(self) -> (n: Node) {
        Node::Many(self)
    }

    fn emit(self, counter: &mut usize) -> (out: Vec<Instr>) {
        lower(Node::Many(self), counter)
    }
}

/// Turns any emittable value into a node, so that values of different kinds
/// can stand in one collection.
pub fn boxed<E: Emittable>(e: E) -> (n: Node)
    ensures
        n == e.node(),
{
    e.into_node()
}

} // verus!
