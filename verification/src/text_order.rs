//! The order of texts: character by character, a prefix before its
//! extensions. This is the order in which `String` values compare.

use vstd::prelude::*;
use vstd::string::StrSliceExecFns;

verus! {

/// Whether `a` comes before `b`, or equals it, when the two are compared
/// from position `i` on.
pub open spec fn lex_le_from(a: Seq<char>, b: Seq<char>, i: int) -> bool
    decreases a.len() - i,
{
    if i < 0 || i >= a.len() {
        true
    } else if i >= b.len() {
        false
    } else if (a[i] as u32) < (b[i] as u32) {
        true
    } else if (a[i] as u32) > (b[i] as u32) {
        false
    } else {
        lex_le_from(a, b, i + 1)
    }
}

/// Whether `a` comes before `b` or equals it.
pub open spec fn lex_le(a: Seq<char>, b: Seq<char>) -> bool {
    lex_le_from(a, b, 0)
}

/// Whether every text comes before, or equals, the texts that follow it.
pub open spec fn sorted(s: Seq<Seq<char>>) -> bool {
    forall|i: int, j: int| 0 <= i < j < s.len() ==> lex_le(#[trigger] s[i], #[trigger] s[j])
}

/// Of two texts, one comes before the other or equals it.
pub proof fn lemma_lex_total(a: Seq<char>, b: Seq<char>, i: int)
    requires
        0 <= i,
    ensures
        lex_le_from(a, b, i) || lex_le_from(b, a, i),
    decreases a.len() - i,
{
    if i < a.len() && i < b.len() && a[i] as u32 == b[i] as u32 {
        lemma_lex_total(a, b, i + 1);
    }
}

/// The order is transitive.
pub proof fn lemma_lex_transitive(a: Seq<char>, b: Seq<char>, c: Seq<char>, i: int)
    requires
        0 <= i,
        lex_le_from(a, b, i),
        lex_le_from(b, c, i),
    ensures
        lex_le_from(a, c, i),
    decreases a.len() - i,
{
    if i < a.len() {
        if a[i] as u32 == b[i] as u32 && b[i] as u32 == c[i] as u32 {
            lemma_lex_transitive(a, b, c, i + 1);
        }
    }
}

/// Whether `a` comes before `b` or equals it.
pub fn text_le(a: &str, b: &str) -> (r: bool)
    ensures
        r == lex_le(a@, b@),
{
    let n: usize = a.unicode_len();
    let m: usize = b.unicode_len();
    let mut i: usize = 0;
    while i < n
        invariant
            n == a@.len(),
            m == b@.len(),
            i <= n,
            lex_le_from(a@, b@, i as int) == lex_le(a@, b@),
        decreases n - i,
    {
        if i >= m {
            return false;
        }
        let x = a.get_char(i);
        let y = b.get_char(i);
        if x < y {
            return true;
        }
        if x > y {
            return false;
        }
        i = i + 1;
    }
    true
}

/// Puts `item` into a sorted list at its place: after the texts that come
/// before it or equal it.
pub fn insert_sorted(list: &mut Vec<String>, item: String)
    requires
        sorted(old(list)@.map_values(|s: String| s@)),
    ensures
        sorted(final(list)@.map_values(|s: String| s@)),
        final(list)@.map_values(|s: String| s@).to_multiset() == old(list)@.map_values(
            |s: String| s@,
        ).to_multiset().insert(item@),
{
    let ghost before = list@.map_values(|s: String| s@);
    let n: usize = list.len();
    let mut p: usize = 0;
    while p < n && text_le(list[p].as_str(), item.as_str())
        invariant
            n == list.len(),
            p <= n,
            *list == *old(list),
            before == list@.map_values(|s: String| s@),
            forall|q: int| 0 <= q < p ==> lex_le(#[trigger] before[q], item@),
        decreases n - p,
    {
        p = p + 1;
    }
    list.insert(p, item);
    proof {
        let after = list@.map_values(|s: String| s@);
        assert(after =~= before.insert(p as int, item@));
        if p < n {
            lemma_lex_total(before[p as int], item@, 0);
        }
        assert forall|i: int, j: int| 0 <= i < j < after.len() implies lex_le(
            #[trigger] after[i],
            #[trigger] after[j],
        ) by {
            if i == p && j - 1 > p {
                lemma_lex_transitive(item@, before[p as int], before[j - 1], 0);
            }
        }
        vstd::seq_lib::to_multiset_insert(before, p as int, item@);
    }
}

} // verus!
