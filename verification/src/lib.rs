//! Assembly source generation for an 8-bit handheld CPU.
//!
//! [`gb_asm`] holds the instruction model and the builder that writes
//! instructions out as text. [`gb_std`] builds on it: structured control
//! flow that lowers to jumps and labels, and routines for graphics and
//! input. [`rust_boy`] puts a whole program together. [`GbGen`] is a plain
//! generator that collects lines of text.

pub mod gb_asm;
pub mod gb_std;
mod instructions;
pub mod rust_boy;
pub mod text;
pub mod text_order;
mod utility;

use vstd::prelude::*;

verus! {

/// A generator that collects lines of assembly text.
pub struct GbGen {
    pub(crate) main_code: Vec<String>,
    /// The constants in the order of their definition; a later definition
    /// of a name overrides an earlier one.
    pub(crate) constants: Vec<(String, u16)>,
    pub(crate) labels: Vec<String>,
}

/// The mathematical value of a [`GbGen`].
pub struct GbGenV {
    /// The lines written so far.
    pub lines: Seq<Seq<char>>,
    /// The constants defined so far, by name.
    pub constants: Map<Seq<char>, u16>,
    /// The labels defined so far.
    pub labels: Seq<Seq<char>>,
}

/// The constants by name after the first `k` definitions.
pub open spec fn constants_map(defs: Seq<(String, u16)>, k: int) -> Map<Seq<char>, u16>
    decreases k,
{
    if k <= 0 || k > defs.len() {
        Map::empty()
    } else {
        constants_map(defs, k - 1).insert(defs[k - 1].0@, defs[k - 1].1)
    }
}

/// The constants after `k` definitions depend on those definitions only.
pub proof fn lemma_constants_map_prefix(a: Seq<(String, u16)>, b: Seq<(String, u16)>, k: int)
    requires
        0 <= k <= a.len(),
        k <= b.len(),
        forall|i: int| 0 <= i < k ==> a[i] == b[i],
    ensures
        constants_map(a, k) == constants_map(b, k),
    decreases k,
{
    if k > 0 {
        lemma_constants_map_prefix(a, b, k - 1);
    }
}

impl GbGenV {
    /// The value after one more line was written.
    pub open spec fn with_line(self, line: Seq<char>) -> GbGenV {
        GbGenV { lines: self.lines.push(line), ..self }
    }
}

impl View for GbGen {
    type V = GbGenV;

    closed spec fn view(&self) -> GbGenV {
        GbGenV {
            lines: self.main_code@.map_values(|s: String| s@),
            constants: constants_map(self.constants@, self.constants@.len() as int),
            labels: self.labels@.map_values(|s: String| s@),
        }
    }
}

impl GbGen {
    /// A generator that holds nothing.
    pub fn new() -> (r: GbGen)
        ensures
            r@.lines == Seq::<Seq<char>>::empty(),
            r@.constants == Map::<Seq<char>, u16>::empty(),
            r@.labels == Seq::<Seq<char>>::empty(),
    {
        GbGen { main_code: Vec::new(), constants: Vec::new(), labels: Vec::new() }
    }

    /// Writes a line.
    pub(crate) fn push_line(&mut self, line: String)
        ensures
            final(self)@ == old(self)@.with_line(line@),
    {
        self.main_code.push(line);
        assert(self@.lines =~= old(self)@.lines.push(line@));
    }
}

} // verus!
