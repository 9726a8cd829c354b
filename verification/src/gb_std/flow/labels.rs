//! Names of the labels that a conditional block generates.
//!
//! A block is stamped with one value of the label counter. Each of its
//! labels is a fixed prefix followed by the decimal numeral of that value, so
//! that two labels are equal only when both the role and the stamp agree.

use crate::text::{decimal, join2, lemma_decimal_injective, decimal_string};
use vstd::prelude::*;

verus! {

/// What a generated label marks within its block.
#[derive(Clone, Copy, Debug, PartialEq, Eq, Structural)]
pub enum LabelRole {
    /// The first instruction after the block.
    End,
    /// The start of the else-branch.
    Else,
    /// The start of the then-branch.
    Then,
}

impl LabelRole {
    /// The prefix of the labels of this role; the leading dot makes them
    /// local to the enclosing routine.
    pub open spec fn prefix(self) -> Seq<char> {
        match self {
            LabelRole::End => ".end_if_"@,
            LabelRole::Else => ".else_"@,
            LabelRole::Then => ".then_"@,
        }
    }

    /// The prefix of the labels of this role.
    pub fn prefix_str(&self) -> (r: &'static str)
        ensures
            r@ == self.prefix(),
    {
        match self {
            LabelRole::End => ".end_if_",
            LabelRole::Else => ".else_",
            LabelRole::Then => ".then_",
        }
    }
}

/// The label of the given role in the block stamped `n`.
pub open spec fn label_name(role: LabelRole, n: nat) -> Seq<char> {
    role.prefix() + decimal(n)
}

/// The label after the block stamped `n`.
pub open spec fn end_label(n: nat) -> Seq<char> {
    label_name(LabelRole::End, n)
}

/// The label before the else-branch of the block stamped `n`.
pub open spec fn else_label(n: nat) -> Seq<char> {
    label_name(LabelRole::Else, n)
}

/// The label before the then-branch of the block stamped `n`.
pub open spec fn then_label(n: nat) -> Seq<char> {
    label_name(LabelRole::Then, n)
}

/// The three labels that the block stamped `n` may define.
pub open spec fn block_labels(n: nat) -> Set<Seq<char>> {
    set![end_label(n), else_label(n), then_label(n)]
}

/// The label of the given role in the block stamped `n`, as text.
pub fn make_label(role: LabelRole, n: usize) -> (r: String)
    ensures
        r@ == label_name(role, n as nat),
{
    let digits = decimal_string(n as u64);
    join2(role.prefix_str(), digits.as_str())
}

/// Two generated labels are the same text only when they mark the same role
/// in the same block.
pub proof fn lemma_label_name_injective(r1: LabelRole, m: nat, r2: LabelRole, n: nat)
    requires
        label_name(r1, m) == label_name(r2, n),
    ensures
        r1 == r2,
        m == n,
{
    reveal_strlit(".end_if_");
    reveal_strlit(".else_");
    reveal_strlit(".then_");
    let a = label_name(r1, m);
    let b = label_name(r2, n);
    // The second character tells `.then_` from the other two.
    // The third character tells `.end_if_` from `.else_`.
    assert(a[2] == b[2]);
    let p = r1.prefix();
    assert(decimal(m) =~= a.subrange(p.len() as int, a.len() as int));
    assert(decimal(n) =~= b.subrange(p.len() as int, b.len() as int));
    lemma_decimal_injective(m, n);
}

/// Blocks with different stamps share no label.
pub proof fn lemma_block_labels_disjoint(m: nat, n: nat)
    requires
        m != n,
    ensures
        block_labels(m).disjoint(block_labels(n)),
{
    assert forall|l: Seq<char>| !(block_labels(m).contains(l) && block_labels(n).contains(l)) by {
        if block_labels(m).contains(l) && block_labels(n).contains(l) {
            let r1 = if l == end_label(m) {
                LabelRole::End
            } else if l == else_label(m) {
                LabelRole::Else
            } else {
                LabelRole::Then
            };
            let r2 = if l == end_label(n) {
                LabelRole::End
            } else if l == else_label(n) {
                LabelRole::Else
            } else {
                LabelRole::Then
            };
            lemma_label_name_injective(r1, m, r2, n);
        }
    }
}

/// The three labels of one block are three different texts.
pub proof fn lemma_block_labels_distinct(n: nat)
    ensures
        end_label(n) != else_label(n),
        end_label(n) != then_label(n),
        else_label(n) != then_label(n),
{
    if end_label(n) == else_label(n) {
        lemma_label_name_injective(LabelRole::End, n, LabelRole::Else, n);
    }
    if end_label(n) == then_label(n) {
        lemma_label_name_injective(LabelRole::End, n, LabelRole::Then, n);
    }
    if else_label(n) == then_label(n) {
        lemma_label_name_injective(LabelRole::Else, n, LabelRole::Then, n);
    }
}

} // verus!
