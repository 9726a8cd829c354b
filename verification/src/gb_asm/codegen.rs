//! Writing a builder's chunks out as assembly text.

use super::builder::{Asm, Chunk, chunk_order, render_block, render_lines};
use super::instr::{Instr, InstrV, clone_instrs};
use vstd::prelude::*;
use vstd::string::StringExecFns;

verus! {

/// Appends the block of one chunk to the text.
fn render_chunk(out: &mut String, slot: Option<&Vec<Instr>>)
    ensures
        final(out)@ == old(out)@ + render_block(
            match slot {
                Some(v) => v.deep_view(),
                None => Seq::<InstrV>::empty(),
            },
        ),
{
    match slot {
        Some(instructions) => {
            if instructions.len() > 0 {
                let n: usize = instructions.len();
                let mut i: usize = 0;
                while i < n
                    invariant
                        n == instructions.len(),
                        i <= n,
                        out@ == old(out)@ + render_lines(instructions.deep_view().take(i as int)),
                    decreases n - i,
                {
                    let line = instructions[i].to_string();
                    out.append("    ");
                    out.append(line.as_str());
                    out.append("\n");
                    proof {
                        let all = instructions.deep_view();
                        let next = all.take(i + 1);
                        assert(next.drop_last() =~= all.take(i as int));
                    }
                    i = i + 1;
                }
                assert(instructions.deep_view().take(n as int) =~= instructions.deep_view());
                out.append("\n");
            }
        },
        None => {},
    }
}

impl Asm {
    /// A copy of the instructions of [`Chunk::Main`]; empty where that chunk
    /// was never written to.
    pub fn get_main_instrs(&self) -> (r: Vec<Instr>)
        ensures
            r.deep_view() == self@.content(Chunk::Main),
    {
        match self.get_chunk(Chunk::Main) {
            Some(v) => clone_instrs(v),
            None => {
                let r: Vec<Instr> = Vec::new();
                r
            },
        }
    }

    /// The generated source. Each chunk that holds instructions is written
    /// as one line per instruction, indented by four spaces, and is followed
    /// by one blank line; the chunks come in [`chunk_order`].
    pub fn to_asm(&self) -> (r: String)
        ensures
            r@ == self@.rendered(),
    {
        let mut out = String::new();
        let ghost order = chunk_order();
        assert(out@ =~= self@.rendered_upto(order, 0));
        render_chunk(&mut out, self.get_chunk(Chunk::Header));
        assert(out@ =~= self@.rendered_upto(order, 1));
        render_chunk(&mut out, self.get_chunk(Chunk::Constants));
        assert(out@ =~= self@.rendered_upto(order, 2));
        render_chunk(&mut out, self.get_chunk(Chunk::Init));
        assert(out@ =~= self@.rendered_upto(order, 3));
        render_chunk(&mut out, self.get_chunk(Chunk::MainLoop));
        assert(out@ =~= self@.rendered_upto(order, 4));
        render_chunk(&mut out, self.get_chunk(Chunk::Main));
        assert(out@ =~= self@.rendered_upto(order, 5));
        render_chunk(&mut out, self.get_chunk(Chunk::Functions));
        assert(out@ =~= self@.rendered_upto(order, 6));
        render_chunk(&mut out, self.get_chunk(Chunk::Data));
        assert(out@ =~= self@.rendered_upto(order, 7));
        render_chunk(&mut out, self.get_chunk(Chunk::Tiles));
        assert(out@ =~= self@.rendered_upto(order, 8));
        render_chunk(&mut out, self.get_chunk(Chunk::Tilemap));
        out
    }
}

} // verus!
