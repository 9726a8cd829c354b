//! The assembly builder: instructions accumulate in named chunks.

use super::instr::{
    Condition, Instr, InstrV, JumpTarget, JumpTargetV, Operand, OperandV, Register,
};
use vstd::prelude::*;
use vstd::string::StringExecFns;

verus! {

/// A named buffer of the generated source. The chunks are written out in the
/// order of [`chunk_order`], whatever the order in which they were filled.
#[derive(Debug, Clone, Copy, PartialEq, Eq, Hash, Structural)]
pub enum Chunk {
    /// Includes and the cartridge header.
    Header,
    /// Constant definitions.
    Constants,
    /// Start-up code.
    Init,
    /// The main loop.
    MainLoop,
    /// Free-standing code; the chunk a new builder writes to.
    Main,
    /// Subroutines.
    Functions,
    /// Variables.
    Data,
    /// Tile graphics.
    Tiles,
    /// Tile maps.
    Tilemap,
}

/// The order in which the chunks are written out.
pub open spec fn chunk_order() -> Seq<Chunk> {
    seq![
        Chunk::Header,
        Chunk::Constants,
        Chunk::Init,
        Chunk::MainLoop,
        Chunk::Main,
        Chunk::Functions,
        Chunk::Data,
        Chunk::Tiles,
        Chunk::Tilemap,
    ]
}

/// The lines of a chunk: each instruction indented by four spaces and ended
/// by a newline.
pub open spec fn render_lines(instrs: Seq<InstrV>) -> Seq<char>
    decreases instrs.len(),
{
    if instrs.len() == 0 {
        Seq::<char>::empty()
    } else {
        render_lines(instrs.drop_last()) + "    "@ + instrs.last().text() + "\n"@
    }
}

/// A chunk as text: nothing when it is empty, else its lines and one blank
/// line.
pub open spec fn render_block(instrs: Seq<InstrV>) -> Seq<char> {
    if instrs.len() == 0 {
        Seq::<char>::empty()
    } else {
        render_lines(instrs) + "\n"@
    }
}

/// The mathematical value of an [`Asm`]: what each chunk that was written to
/// holds, and the chunk that is written to next.
pub struct AsmV {
    pub chunks: Map<Chunk, Seq<InstrV>>,
    pub current: Chunk,
}

impl AsmV {
    /// A builder that nothing was written to.
    pub open spec fn empty() -> AsmV {
        AsmV { chunks: Map::empty(), current: Chunk::Main }
    }

    /// The instructions of a chunk; none where it was never written to.
    pub open spec fn content(self, chunk: Chunk) -> Seq<InstrV> {
        if self.chunks.dom().contains(chunk) {
            self.chunks[chunk]
        } else {
            Seq::<InstrV>::empty()
        }
    }

    /// The builder after `chunk` was selected.
    pub open spec fn select(self, chunk: Chunk) -> AsmV {
        AsmV { chunks: self.chunks, current: chunk }
    }

    /// The builder after one instruction was appended to the current chunk.
    pub open spec fn push(self, instr: InstrV) -> AsmV {
        AsmV {
            chunks: self.chunks.insert(self.current, self.content(self.current).push(instr)),
            current: self.current,
        }
    }

    /// The builder after a list of instructions was appended to the current
    /// chunk.
    pub open spec fn extend(self, instrs: Seq<InstrV>) -> AsmV {
        AsmV {
            chunks: self.chunks.insert(self.current, self.content(self.current) + instrs),
            current: self.current,
        }
    }

    /// The text of the chunks `order[0..k]`, one block after the other.
    pub open spec fn rendered_upto(self, order: Seq<Chunk>, k: int) -> Seq<char>
        decreases k,
    {
        if k <= 0 || k > order.len() {
            Seq::<char>::empty()
        } else {
            self.rendered_upto(order, k - 1) + render_block(self.content(order[k - 1]))
        }
    }

    /// The generated source: the block of every chunk, in [`chunk_order`].
    pub open spec fn rendered(self) -> Seq<char> {
        self.rendered_upto(chunk_order(), chunk_order().len() as int)
    }
}

/// One step of a build: an instruction appended to a chunk.
pub struct Emission {
    pub chunk: Chunk,
    pub instr: InstrV,
}

/// The builder after the steps of a build, taken in order.
pub open spec fn replayed(steps: Seq<Emission>) -> AsmV
    decreases steps.len(),
{
    if steps.len() == 0 {
        AsmV::empty()
    } else {
        replayed(steps.drop_last()).select(steps.last().chunk).push(steps.last().instr)
    }
}

/// The instructions that the steps of a build append to one chunk, in the
/// order of the steps.
pub open spec fn appended_to(steps: Seq<Emission>, chunk: Chunk) -> Seq<InstrV>
    decreases steps.len(),
{
    if steps.len() == 0 {
        Seq::<InstrV>::empty()
    } else if steps.last().chunk == chunk {
        appended_to(steps.drop_last(), chunk).push(steps.last().instr)
    } else {
        appended_to(steps.drop_last(), chunk)
    }
}

/// After a build, a chunk holds what the build appended to it.
pub proof fn lemma_replayed_content(steps: Seq<Emission>, chunk: Chunk)
    ensures
        replayed(steps).content(chunk) == appended_to(steps, chunk),
    decreases steps.len(),
{
    if steps.len() > 0 {
        lemma_replayed_content(steps.drop_last(), chunk);
    }
}

/// The text that is written out depends on what the chunks hold, and on
/// nothing else: neither on the chunk that is selected nor on which chunks
/// were touched.
pub proof fn lemma_rendered_by_content(a: AsmV, b: AsmV)
    requires
        forall|chunk: Chunk| a.content(chunk) == b.content(chunk),
    ensures
        a.rendered() == b.rendered(),
{
    let order = chunk_order();
    assert forall|k: int| 0 <= k <= order.len() implies a.rendered_upto(order, k)
        == b.rendered_upto(order, k) by {
        lemma_rendered_upto_by_content(a, b, order, k);
    }
}

/// The text of the first `k` chunks depends on what the chunks hold.
pub proof fn lemma_rendered_upto_by_content(a: AsmV, b: AsmV, order: Seq<Chunk>, k: int)
    requires
        forall|chunk: Chunk| a.content(chunk) == b.content(chunk),
        0 <= k <= order.len(),
    ensures
        a.rendered_upto(order, k) == b.rendered_upto(order, k),
    decreases k,
{
    if k > 0 {
        lemma_rendered_upto_by_content(a, b, order, k - 1);
    }
}

/// Chunk order invariance: two builds that append the same instructions to
/// the same chunks, in whatever order they take their steps, are written
/// out as the same text.
pub proof fn lemma_chunk_order_invariance(first: Seq<Emission>, second: Seq<Emission>)
    requires
        forall|chunk: Chunk| appended_to(first, chunk) == appended_to(second, chunk),
    ensures
        replayed(first).rendered() == replayed(second).rendered(),
{
    assert forall|chunk: Chunk| replayed(first).content(chunk) == replayed(second).content(
        chunk,
    ) by {
        lemma_replayed_content(first, chunk);
        lemma_replayed_content(second, chunk);
    }
    lemma_rendered_by_content(replayed(first), replayed(second));
}

/// Accumulates instructions in named chunks and writes them out as text.
pub struct Asm {
    pub(crate) header: Option<Vec<Instr>>,
    pub(crate) constants: Option<Vec<Instr>>,
    pub(crate) init: Option<Vec<Instr>>,
    pub(crate) main_loop: Option<Vec<Instr>>,
    pub(crate) main: Option<Vec<Instr>>,
    pub(crate) functions: Option<Vec<Instr>>,
    pub(crate) data: Option<Vec<Instr>>,
    pub(crate) tiles: Option<Vec<Instr>>,
    pub(crate) tilemap: Option<Vec<Instr>>,
    current_chunk: Chunk,
}

/// Appends one instruction to a chunk's buffer, which is created when the
/// chunk is written to for the first time.
fn push_slot(slot: &mut Option<Vec<Instr>>, instr: Instr)
    ensures
        *final(slot) is Some,
        (*final(slot))->0.deep_view() == (match *old(slot) {
            Some(v) => v.deep_view(),
            None => Seq::<InstrV>::empty(),
        }).push(instr.deep_view()),
{
    match slot {
        Some(v) => {
            v.push(instr);
        },
        None => {
            let mut v: Vec<Instr> = Vec::new();
            v.push(instr);
            *slot = Some(v);
        },
    }
}

/// Appends a list of instructions to a chunk's buffer, which is created when
/// the chunk is written to for the first time.
fn extend_slot(slot: &mut Option<Vec<Instr>>, instrs: Vec<Instr>)
    ensures
        *final(slot) is Some,
        (*final(slot))->0.deep_view() == (match *old(slot) {
            Some(v) => v.deep_view(),
            None => Seq::<InstrV>::empty(),
        }) + instrs.deep_view(),
{
    let mut instrs = instrs;
    match slot {
        Some(v) => {
            v.append(&mut instrs);
        },
        None => {
            *slot = Some(instrs);
        },
    }
}

impl Asm {
    /// The buffer of a chunk.
    pub closed spec fn slot(&self, chunk: Chunk) -> Option<Vec<Instr>> {
        match chunk {
            Chunk::Header => self.header,
            Chunk::Constants => self.constants,
            Chunk::Init => self.init,
            Chunk::MainLoop => self.main_loop,
            Chunk::Main => self.main,
            Chunk::Functions => self.functions,
            Chunk::Data => self.data,
            Chunk::Tiles => self.tiles,
            Chunk::Tilemap => self.tilemap,
        }
    }
}

impl View for Asm {
    type V = AsmV;

    closed spec fn view(&self) -> AsmV {
        AsmV {
            chunks: Map::new(
                |c: Chunk| self.slot(c) is Some,
                |c: Chunk| self.slot(c)->0.deep_view(),
            ),
            current: self.current_chunk,
        }
    }
}

impl Asm {
    /// A builder that holds nothing and writes to [`Chunk::Main`].
    pub fn new() -> (r: Self)
        ensures
            r@ == AsmV::empty(),
    {
        let r = Asm {
            header: None,
            constants: None,
            init: None,
            main_loop: None,
            main: None,
            functions: None,
            data: None,
            tiles: None,
            tilemap: None,
            current_chunk: Chunk::Main,
        };
        assert(r@.chunks =~= Map::<Chunk, Seq<InstrV>>::empty());
        r
    }

    /// Selects the chunk that the following calls write to.
    pub fn chunk(&mut self, chunk: Chunk) -> (ret: &mut Self)
        ensures
            ret@ == old(self)@.select(chunk),
            *final(self) == *final(ret),
    {
        self.current_chunk = chunk;
        assert(self@.chunks =~= old(self)@.chunks);
        self
    }

    /// Appends one instruction to the current chunk.
    pub fn emit(&mut self, instr: Instr) -> (ret: &mut Self)
        ensures
            ret@ == old(self)@.push(instr.deep_view()),
            *final(self) == *final(ret),
    {
        match self.current_chunk {
            Chunk::Header => push_slot(&mut self.header, instr),
            Chunk::Constants => push_slot(&mut self.constants, instr),
            Chunk::Init => push_slot(&mut self.init, instr),
            Chunk::MainLoop => push_slot(&mut self.main_loop, instr),
            Chunk::Main => push_slot(&mut self.main, instr),
            Chunk::Functions => push_slot(&mut self.functions, instr),
            Chunk::Data => push_slot(&mut self.data, instr),
            Chunk::Tiles => push_slot(&mut self.tiles, instr),
            Chunk::Tilemap => push_slot(&mut self.tilemap, instr),
        }
        assert(self@.chunks =~= old(self)@.push(instr.deep_view()).chunks);
        self
    }

    /// Appends a list of instructions to the current chunk.
    pub fn emit_all(&mut self, instrs: Vec<Instr>) -> (ret: &mut Self)
        ensures
            ret@ == old(self)@.extend(instrs.deep_view()),
            *final(self) == *final(ret),
    {
        let ghost added = instrs.deep_view();
        match self.current_chunk {
            Chunk::Header => extend_slot(&mut self.header, instrs),
            Chunk::Constants => extend_slot(&mut self.constants, instrs),
            Chunk::Init => extend_slot(&mut self.init, instrs),
            Chunk::MainLoop => extend_slot(&mut self.main_loop, instrs),
            Chunk::Main => extend_slot(&mut self.main, instrs),
            Chunk::Functions => extend_slot(&mut self.functions, instrs),
            Chunk::Data => extend_slot(&mut self.data, instrs),
            Chunk::Tiles => extend_slot(&mut self.tiles, instrs),
            Chunk::Tilemap => extend_slot(&mut self.tilemap, instrs),
        }
        assert(self@.chunks =~= old(self)@.extend(added).chunks);
        self
    }

    /// The instructions of a chunk, or `None` where it was never written to.
    pub fn get_chunk(&self, chunk: Chunk) -> (r: Option<&Vec<Instr>>)
        ensures
            r is Some <==> self@.chunks.dom().contains(chunk),
            r is Some ==> r->0.deep_view() == self@.chunks[chunk],
    {
        match chunk {
            Chunk::Header => self.header.as_ref(),
            Chunk::Constants => self.constants.as_ref(),
            Chunk::Init => self.init.as_ref(),
            Chunk::MainLoop => self.main_loop.as_ref(),
            Chunk::Main => self.main.as_ref(),
            Chunk::Functions => self.functions.as_ref(),
            Chunk::Data => self.data.as_ref(),
            Chunk::Tiles => self.tiles.as_ref(),
            Chunk::Tilemap => self.tilemap.as_ref(),
        }
    }

    // Load instructions

    /// Emits `ld dst, src`.
    pub fn ld(&mut self, dst: Operand, src: Operand) -> (ret: &mut Self)
        ensures
            ret@ == old(self)@.push((InstrV::Ld { dst: dst.deep_view(), src: src.deep_view() })),
            *final(self) == *final(ret),
    {
        self.emit(Instr::Ld { dst, src })
    }

    /// Loads an immediate byte into `a`.
    pub fn ld_a(&mut self, value: u8) -> (ret: &mut Self)
        ensures
            ret@ == old(self)@.push(
                (InstrV::Ld { dst: OperandV::Reg(Register::A), src: OperandV::Imm(value) }),
            ),
            *final(self) == *final(ret),
    {
        self.emit(Instr::Ld { dst: Operand::Reg(Register::A), src: Operand::Imm(value) })
    }

    /// Loads an immediate byte into `b`.
    pub fn ld_b(&mut self, value: u8) -> (ret: &mut Self)
        ensures
            ret@ == old(self)@.push(
                (InstrV::Ld { dst: OperandV::Reg(Register::B), src: OperandV::Imm(value) }),
            ),
            *final(self) == *final(ret),
    {
        self.emit(Instr::Ld { dst: Operand::Reg(Register::B), src: Operand::Imm(value) })
    }

    /// Loads an immediate byte into `c`.
    pub fn ld_c(&mut self, value: u8) -> (ret: &mut Self)
        ensures
            ret@ == old(self)@.push(
                (InstrV::Ld { dst: OperandV::Reg(Register::C), src: OperandV::Imm(value) }),
            ),
            *final(self) == *final(ret),
    {
        self.emit(Instr::Ld { dst: Operand::Reg(Register::C), src: Operand::Imm(value) })
    }

    /// Loads an immediate byte into `d`.
    pub fn ld_d(&mut self, value: u8) -> (ret: &mut Self)
        ensures
            ret@ == old(self)@.push(
                (InstrV::Ld { dst: OperandV::Reg(Register::D), src: OperandV::Imm(value) }),
            ),
            *final(self) == *final(ret),
    {
        self.emit(Instr::Ld { dst: Operand::Reg(Register::D), src: Operand::Imm(value) })
    }

    /// Loads an immediate byte into `e`.
    pub fn ld_e(&mut self, value: u8) -> (ret: &mut Self)
        ensures
            ret@ == old(self)@.push(
                (InstrV::Ld { dst: OperandV::Reg(Register::E), src: OperandV::Imm(value) }),
            ),
            *final(self) == *final(ret),
    {
        self.emit(Instr::Ld { dst: Operand::Reg(Register::E), src: Operand::Imm(value) })
    }

    /// Loads an immediate byte into `h`.
    pub fn ld_h(&mut self, value: u8) -> (ret: &mut Self)
        ensures
            ret@ == old(self)@.push(
                (InstrV::Ld { dst: OperandV::Reg(Register::H), src: OperandV::Imm(value) }),
            ),
            *final(self) == *final(ret),
    {
        self.emit(Instr::Ld { dst: Operand::Reg(Register::H), src: Operand::Imm(value) })
    }

    /// Loads an immediate byte into `l`.
    pub fn ld_l(&mut self, value: u8) -> (ret: &mut Self)
        ensures
            ret@ == old(self)@.push(
                (InstrV::Ld { dst: OperandV::Reg(Register::L), src: OperandV::Imm(value) }),
            ),
            *final(self) == *final(ret),
    {
        self.emit(Instr::Ld { dst: Operand::Reg(Register::L), src: Operand::Imm(value) })
    }

    /// Loads an immediate word into `bc`.
    pub fn ld_bc(&mut self, value: u16) -> (ret: &mut Self)
        ensures
            ret@ == old(self)@.push(
                (InstrV::Ld { dst: OperandV::Reg(Register::BC), src: OperandV::Imm16(value) }),
            ),
            *final(self) == *final(ret),
    {
        self.emit(Instr::Ld { dst: Operand::Reg(Register::BC), src: Operand::Imm16(value) })
    }

    /// Loads an immediate word into `de`.
    pub fn ld_de(&mut self, value: u16) -> (ret: &mut Self)
        ensures
            ret@ == old(self)@.push(
                (InstrV::Ld { dst: OperandV::Reg(Register::DE), src: OperandV::Imm16(value) }),
            ),
            *final(self) == *final(ret),
    {
        self.emit(Instr::Ld { dst: Operand::Reg(Register::DE), src: Operand::Imm16(value) })
    }

    /// Loads an immediate word into `hl`.
    pub fn ld_hl(&mut self, value: u16) -> (ret: &mut Self)
        ensures
            ret@ == old(self)@.push(
                (InstrV::Ld { dst: OperandV::Reg(Register::HL), src: OperandV::Imm16(value) }),
            ),
            *final(self) == *final(ret),
    {
        self.emit(Instr::Ld { dst: Operand::Reg(Register::HL), src: Operand::Imm16(value) })
    }

    /// Loads a symbolic value into `a`.
    pub fn ld_a_label(&mut self, label: &str) -> (ret: &mut Self)
        ensures
            ret@ == old(self)@.push(
                (InstrV::Ld { dst: OperandV::Reg(Register::A), src: OperandV::Label(label@) }),
            ),
            *final(self) == *final(ret),
    {
        self.emit(Instr::Ld {
            dst: Operand::Reg(Register::A),
            src: Operand::Label(String::from_str(label)),
        })
    }

    /// Loads a symbolic value into `bc`.
    pub fn ld_bc_label(&mut self, label: &str) -> (ret: &mut Self)
        ensures
            ret@ == old(self)@.push(
                (InstrV::Ld { dst: OperandV::Reg(Register::BC), src: OperandV::Label(label@) }),
            ),
            *final(self) == *final(ret),
    {
        self.emit(Instr::Ld {
            dst: Operand::Reg(Register::BC),
            src: Operand::Label(String::from_str(label)),
        })
    }

    /// Loads a symbolic value into `de`.
    pub fn ld_de_label(&mut self, label: &str) -> (ret: &mut Self)
        ensures
            ret@ == old(self)@.push(
                (InstrV::Ld { dst: OperandV::Reg(Register::DE), src: OperandV::Label(label@) }),
            ),
            *final(self) == *final(ret),
    {
        self.emit(Instr::Ld {
            dst: Operand::Reg(Register::DE),
            src: Operand::Label(String::from_str(label)),
        })
    }

    /// Loads a symbolic value into `hl`.
    pub fn ld_hl_label(&mut self, label: &str) -> (ret: &mut Self)
        ensures
            ret@ == old(self)@.push(
                (InstrV::Ld { dst: OperandV::Reg(Register::HL), src: OperandV::Label(label@) }),
            ),
            *final(self) == *final(ret),
    {
        self.emit(Instr::Ld {
            dst: Operand::Reg(Register::HL),
            src: Operand::Label(String::from_str(label)),
        })
    }

    /// Stores a symbolic value at the address in `hl` and increments `hl`.
    pub fn ld_hli_label(&mut self, label: &str) -> (ret: &mut Self)
        ensures
            ret@ == old(self)@.push(
                (InstrV::Ld {
                    dst: OperandV::AddrRegInc(Register::HL),
                    src: OperandV::Label(label@),
                }),
            ),
            *final(self) == *final(ret),
    {
        self.emit(Instr::Ld {
            dst: Operand::AddrRegInc(Register::HL),
            src: Operand::Label(String::from_str(label)),
        })
    }

    /// Loads a symbolic value into `b`.
    pub fn ld_b_label(&mut self, label: &str) -> (ret: &mut Self)
        ensures
            ret@ == old(self)@.push(
                (InstrV::Ld { dst: OperandV::Reg(Register::B), src: OperandV::Label(label@) }),
            ),
            *final(self) == *final(ret),
    {
        self.emit(Instr::Ld {
            dst: Operand::Reg(Register::B),
            src: Operand::Label(String::from_str(label)),
        })
    }

    /// Loads a symbolic value into `c`.
    pub fn ld_c_label(&mut self, label: &str) -> (ret: &mut Self)
        ensures
            ret@ == old(self)@.push(
                (InstrV::Ld { dst: OperandV::Reg(Register::C), src: OperandV::Label(label@) }),
            ),
            *final(self) == *final(ret),
    {
        self.emit(Instr::Ld {
            dst: Operand::Reg(Register::C),
            src: Operand::Label(String::from_str(label)),
        })
    }

    /// Loads a symbolic value into `d`.
    pub fn ld_d_label(&mut self, label: &str) -> (ret: &mut Self)
        ensures
            ret@ == old(self)@.push(
                (InstrV::Ld { dst: OperandV::Reg(Register::D), src: OperandV::Label(label@) }),
            ),
            *final(self) == *final(ret),
    {
        self.emit(Instr::Ld {
            dst: Operand::Reg(Register::D),
            src: Operand::Label(String::from_str(label)),
        })
    }

    /// Loads a symbolic value into `e`.
    pub fn ld_e_label(&mut self, label: &str) -> (ret: &mut Self)
        ensures
            ret@ == old(self)@.push(
                (InstrV::Ld { dst: OperandV::Reg(Register::E), src: OperandV::Label(label@) }),
            ),
            *final(self) == *final(ret),
    {
        self.emit(Instr::Ld {
            dst: Operand::Reg(Register::E),
            src: Operand::Label(String::from_str(label)),
        })
    }

    /// Loads a symbolic value into `h`.
    pub fn ld_h_label(&mut self, label: &str) -> (ret: &mut Self)
        ensures
            ret@ == old(self)@.push(
                (InstrV::Ld { dst: OperandV::Reg(Register::H), src: OperandV::Label(label@) }),
            ),
            *final(self) == *final(ret),
    {
        self.emit(Instr::Ld {
            dst: Operand::Reg(Register::H),
            src: Operand::Label(String::from_str(label)),
        })
    }

    /// Loads a symbolic value into `l`.
    pub fn ld_l_label(&mut self, label: &str) -> (ret: &mut Self)
        ensures
            ret@ == old(self)@.push(
                (InstrV::Ld { dst: OperandV::Reg(Register::L), src: OperandV::Label(label@) }),
            ),
            *final(self) == *final(ret),
    {
        self.emit(Instr::Ld {
            dst: Operand::Reg(Register::L),
            src: Operand::Label(String::from_str(label)),
        })
    }

    /// Stores `a` at a symbolic destination.
    pub fn ld_addr_label_a(&mut self, address: &str) -> (ret: &mut Self)
        ensures
            ret@ == old(self)@.push(
                (InstrV::Ld { dst: OperandV::Label(address@), src: OperandV::Reg(Register::A) }),
            ),
            *final(self) == *final(ret),
    {
        self.emit(Instr::Ld {
            dst: Operand::Label(String::from_str(address)),
            src: Operand::Reg(Register::A),
        })
    }

    /// Emits `ldh dst, src`.
    pub fn ldh(&mut self, dst: Operand, src: Operand) -> (ret: &mut Self)
        ensures
            ret@ == old(self)@.push((InstrV::Ldh { dst: dst.deep_view(), src: src.deep_view() })),
            *final(self) == *final(ret),
    {
        self.emit(Instr::Ldh { dst, src })
    }

    /// Emits `ldh` between two symbolic operands.
    pub fn ldh_label(&mut self, dest: &str, src: &str) -> (ret: &mut Self)
        ensures
            ret@ == old(self)@.push(
                (InstrV::Ldh { dst: OperandV::Label(dest@), src: OperandV::Label(src@) }),
            ),
            *final(self) == *final(ret),
    {
        self.emit(Instr::Ldh {
            dst: Operand::Label(String::from_str(dest)),
            src: Operand::Label(String::from_str(src)),
        })
    }

    /// Loads `a` from the address of a named constant.
    pub fn ld_a_addr_def(&mut self, def_name: &str) -> (ret: &mut Self)
        ensures
            ret@ == old(self)@.push(
                (InstrV::Ld { dst: OperandV::Reg(Register::A), src: OperandV::AddrDef(def_name@) }),
            ),
            *final(self) == *final(ret),
    {
        self.emit(Instr::Ld {
            dst: Operand::Reg(Register::A),
            src: Operand::AddrDef(String::from_str(def_name)),
        })
    }

    /// Stores `a` at the address of a named constant.
    pub fn ld_addr_def_a(&mut self, def_name: &str) -> (ret: &mut Self)
        ensures
            ret@ == old(self)@.push(
                (InstrV::Ld { dst: OperandV::AddrDef(def_name@), src: OperandV::Reg(Register::A) }),
            ),
            *final(self) == *final(ret),
    {
        self.emit(Instr::Ld {
            dst: Operand::AddrDef(String::from_str(def_name)),
            src: Operand::Reg(Register::A),
        })
    }

    /// Loads `a` from the address in a register.
    pub fn ld_a_addr_reg(&mut self, reg: Register) -> (ret: &mut Self)
        ensures
            ret@ == old(self)@.push(
                (InstrV::Ld { dst: OperandV::Reg(Register::A), src: OperandV::AddrReg(reg) }),
            ),
            *final(self) == *final(ret),
    {
        self.emit(Instr::Ld { dst: Operand::Reg(Register::A), src: Operand::AddrReg(reg) })
    }

    // Arithmetic instructions

    /// Emits `add dst, src`.
    pub fn add(&mut self, dst: Operand, src: Operand) -> (ret: &mut Self)
        ensures
            ret@ == old(self)@.push((InstrV::Add { dst: dst.deep_view(), src: src.deep_view() })),
            *final(self) == *final(ret),
    {
        self.emit(Instr::Add { dst, src })
    }

    /// Emits `add` between two symbolic operands.
    pub fn add_label(&mut self, reg_a: &str, reg_b: &str) -> (ret: &mut Self)
        ensures
            ret@ == old(self)@.push(
                (InstrV::Add { dst: OperandV::Label(reg_a@), src: OperandV::Label(reg_b@) }),
            ),
            *final(self) == *final(ret),
    {
        self.emit(Instr::Add {
            dst: Operand::Label(String::from_str(reg_a)),
            src: Operand::Label(String::from_str(reg_b)),
        })
    }

    /// Emits `adc` with the accumulator as the implied destination.
    pub fn adc_a(&mut self, operand: Operand) -> (ret: &mut Self)
        ensures
            ret@ == old(self)@.push((InstrV::AdcA { operand: operand.deep_view() })),
            *final(self) == *final(ret),
    {
        self.emit(Instr::AdcA { operand })
    }

    /// Emits `adc dst, src`.
    pub fn adc(&mut self, dst: Operand, src: Operand) -> (ret: &mut Self)
        ensures
            ret@ == old(self)@.push((InstrV::Adc { dst: dst.deep_view(), src: src.deep_view() })),
            *final(self) == *final(ret),
    {
        self.emit(Instr::Adc { dst, src })
    }

    /// Emits `adc` with a symbolic operand.
    pub fn adc_label(&mut self, reg: &str) -> (ret: &mut Self)
        ensures
            ret@ == old(self)@.push((InstrV::AdcA { operand: OperandV::Label(reg@) })),
            *final(self) == *final(ret),
    {
        self.emit(Instr::AdcA { operand: Operand::Label(String::from_str(reg)) })
    }

    /// Emits `sub dst, src`.
    pub fn sub(&mut self, dst: Operand, src: Operand) -> (ret: &mut Self)
        ensures
            ret@ == old(self)@.push((InstrV::Sub { dst: dst.deep_view(), src: src.deep_view() })),
            *final(self) == *final(ret),
    {
        self.emit(Instr::Sub { dst, src })
    }

    /// Emits `sub` between two symbolic operands.
    pub fn sub_label(&mut self, reg_a: &str, reg_b: &str) -> (ret: &mut Self)
        ensures
            ret@ == old(self)@.push(
                (InstrV::Sub { dst: OperandV::Label(reg_a@), src: OperandV::Label(reg_b@) }),
            ),
            *final(self) == *final(ret),
    {
        self.emit(Instr::Sub {
            dst: Operand::Label(String::from_str(reg_a)),
            src: Operand::Label(String::from_str(reg_b)),
        })
    }

    /// Emits `inc`.
    pub fn inc(&mut self, operand: Operand) -> (ret: &mut Self)
        ensures
            ret@ == old(self)@.push((InstrV::Inc { operand: operand.deep_view() })),
            *final(self) == *final(ret),
    {
        self.emit(Instr::Inc { operand })
    }

    /// Emits `inc` with a symbolic operand.
    pub fn inc_label(&mut self, register: &str) -> (ret: &mut Self)
        ensures
            ret@ == old(self)@.push((InstrV::Inc { operand: OperandV::Label(register@) })),
            *final(self) == *final(ret),
    {
        self.emit(Instr::Inc { operand: Operand::Label(String::from_str(register)) })
    }

    /// Emits `dec`.
    pub fn dec(&mut self, operand: Operand) -> (ret: &mut Self)
        ensures
            ret@ == old(self)@.push((InstrV::Dec { operand: operand.deep_view() })),
            *final(self) == *final(ret),
    {
        self.emit(Instr::Dec { operand })
    }

    /// Emits `dec` with a symbolic operand.
    pub fn dec_label(&mut self, register: &str) -> (ret: &mut Self)
        ensures
            ret@ == old(self)@.push((InstrV::Dec { operand: OperandV::Label(register@) })),
            *final(self) == *final(ret),
    {
        self.emit(Instr::Dec { operand: Operand::Label(String::from_str(register)) })
    }

    // Logical instructions

    /// Emits `and a, operand`.
    pub fn and(&mut self, operand: Operand) -> (ret: &mut Self)
        ensures
            ret@ == old(self)@.push((InstrV::And { operand: operand.deep_view() })),
            *final(self) == *final(ret),
    {
        self.emit(Instr::And { operand })
    }

    /// Emits `and a,` with a symbolic operand.
    pub fn and_label(&mut self, value: &str) -> (ret: &mut Self)
        ensures
            ret@ == old(self)@.push((InstrV::And { operand: OperandV::Label(value@) })),
            *final(self) == *final(ret),
    {
        self.emit(Instr::And { operand: Operand::Label(String::from_str(value)) })
    }

    /// Emits `or dst, src`.
    pub fn or(&mut self, dst: Operand, src: Operand) -> (ret: &mut Self)
        ensures
            ret@ == old(self)@.push((InstrV::Or { dst: dst.deep_view(), src: src.deep_view() })),
            *final(self) == *final(ret),
    {
        self.emit(Instr::Or { dst, src })
    }

    /// Emits `or` between two symbolic operands.
    pub fn or_label(&mut self, reg_a: &str, reg_b: &str) -> (ret: &mut Self)
        ensures
            ret@ == old(self)@.push(
                (InstrV::Or { dst: OperandV::Label(reg_a@), src: OperandV::Label(reg_b@) }),
            ),
            *final(self) == *final(ret),
    {
        self.emit(Instr::Or {
            dst: Operand::Label(String::from_str(reg_a)),
            src: Operand::Label(String::from_str(reg_b)),
        })
    }

    /// Emits `xor dst, src`.
    pub fn xor(&mut self, dst: Operand, src: Operand) -> (ret: &mut Self)
        ensures
            ret@ == old(self)@.push((InstrV::Xor { dst: dst.deep_view(), src: src.deep_view() })),
            *final(self) == *final(ret),
    {
        self.emit(Instr::Xor { dst, src })
    }

    /// Emits `xor` between two symbolic operands.
    pub fn xor_label(&mut self, reg_a: &str, reg_b: &str) -> (ret: &mut Self)
        ensures
            ret@ == old(self)@.push(
                (InstrV::Xor { dst: OperandV::Label(reg_a@), src: OperandV::Label(reg_b@) }),
            ),
            *final(self) == *final(ret),
    {
        self.emit(Instr::Xor {
            dst: Operand::Label(String::from_str(reg_a)),
            src: Operand::Label(String::from_str(reg_b)),
        })
    }

    /// Emits `cp`: compares the accumulator with the operand.
    pub fn cp(&mut self, operand: Operand) -> (ret: &mut Self)
        ensures
            ret@ == old(self)@.push((InstrV::Cp { operand: operand.deep_view() })),
            *final(self) == *final(ret),
    {
        self.emit(Instr::Cp { operand })
    }

    /// Compares the accumulator with an immediate byte.
    pub fn cp_imm(&mut self, value: u8) -> (ret: &mut Self)
        ensures
            ret@ == old(self)@.push((InstrV::Cp { operand: OperandV::Imm(value) })),
            *final(self) == *final(ret),
    {
        self.emit(Instr::Cp { operand: Operand::Imm(value) })
    }

    /// Compares the accumulator with a symbolic operand.
    pub fn cp_label(&mut self, value: &str) -> (ret: &mut Self)
        ensures
            ret@ == old(self)@.push((InstrV::Cp { operand: OperandV::Label(value@) })),
            *final(self) == *final(ret),
    {
        self.emit(Instr::Cp { operand: Operand::Label(String::from_str(value)) })
    }

    // Bit shift instructions

    /// Emits `srl`.
    pub fn srl(&mut self, operand: Operand) -> (ret: &mut Self)
        ensures
            ret@ == old(self)@.push((InstrV::Srl { operand: operand.deep_view() })),
            *final(self) == *final(ret),
    {
        self.emit(Instr::Srl { operand })
    }

    /// Emits `srl` with a symbolic operand.
    pub fn srl_label(&mut self, register: &str) -> (ret: &mut Self)
        ensures
            ret@ == old(self)@.push((InstrV::Srl { operand: OperandV::Label(register@) })),
            *final(self) == *final(ret),
    {
        self.emit(Instr::Srl { operand: Operand::Label(String::from_str(register)) })
    }

    /// Emits `swap`.
    pub fn swap(&mut self, operand: Operand) -> (ret: &mut Self)
        ensures
            ret@ == old(self)@.push((InstrV::Swap { operand: operand.deep_view() })),
            *final(self) == *final(ret),
    {
        self.emit(Instr::Swap { operand })
    }

    /// Emits `swap` with a symbolic operand.
    pub fn swap_label(&mut self, register: &str) -> (ret: &mut Self)
        ensures
            ret@ == old(self)@.push((InstrV::Swap { operand: OperandV::Label(register@) })),
            *final(self) == *final(ret),
    {
        self.emit(Instr::Swap { operand: Operand::Label(String::from_str(register)) })
    }

    // Misc instructions

    /// Emits `daa`.
    pub fn daa(&mut self) -> (ret: &mut Self)
        ensures
            ret@ == old(self)@.push((InstrV::Daa)),
            *final(self) == *final(ret),
    {
        self.emit(Instr::Daa)
    }

    // Jump instructions

    /// Jumps to a label.
    pub fn jp(&mut self, label: &str) -> (ret: &mut Self)
        ensures
            ret@ == old(self)@.push((InstrV::Jp { target: JumpTargetV::Label(label@) })),
            *final(self) == *final(ret),
    {
        self.emit(Instr::Jp { target: JumpTarget::Label(String::from_str(label)) })
    }

    /// Jumps to a label when the condition holds.
    pub fn jp_cond(&mut self, condition: Condition, label: &str) -> (ret: &mut Self)
        ensures
            ret@ == old(self)@.push(
                (InstrV::JpCond { condition, target: JumpTargetV::Label(label@) }),
            ),
            *final(self) == *final(ret),
    {
        self.emit(Instr::JpCond { condition, target: JumpTarget::Label(String::from_str(label)) })
    }

    /// Jumps to a nearby label.
    pub fn jr(&mut self, label: &str) -> (ret: &mut Self)
        ensures
            ret@ == old(self)@.push((InstrV::Jr { target: JumpTargetV::Label(label@) })),
            *final(self) == *final(ret),
    {
        self.emit(Instr::Jr { target: JumpTarget::Label(String::from_str(label)) })
    }

    /// Jumps to a nearby label when the condition holds.
    pub fn jr_cond(&mut self, condition: Condition, label: &str) -> (ret: &mut Self)
        ensures
            ret@ == old(self)@.push(
                (InstrV::JrCond { condition, target: JumpTargetV::Label(label@) }),
            ),
            *final(self) == *final(ret),
    {
        self.emit(Instr::JrCond { condition, target: JumpTarget::Label(String::from_str(label)) })
    }

    /// Calls the routine at a label.
    pub fn call(&mut self, label: &str) -> (ret: &mut Self)
        ensures
            ret@ == old(self)@.push((InstrV::Call { target: JumpTargetV::Label(label@) })),
            *final(self) == *final(ret),
    {
        self.emit(Instr::Call { target: JumpTarget::Label(String::from_str(label)) })
    }

    /// Returns from a routine.
    pub fn ret(&mut self) -> (ret: &mut Self)
        ensures
            ret@ == old(self)@.push((InstrV::Ret)),
            *final(self) == *final(ret),
    {
        self.emit(Instr::Ret)
    }

    /// Returns from a routine when the condition holds.
    pub fn ret_cond(&mut self, condition: Condition) -> (ret: &mut Self)
        ensures
            ret@ == old(self)@.push((InstrV::RetCond { condition })),
            *final(self) == *final(ret),
    {
        self.emit(Instr::RetCond { condition })
    }

    // Assembler directives

    /// Reserves space: `ds num_bytes, starter_point`.
    pub fn ds(&mut self, num_bytes: &str, starter_point: &str) -> (ret: &mut Self)
        ensures
            ret@ == old(self)@.push(
                (InstrV::Ds { num_bytes: num_bytes@, starter_point: starter_point@ }),
            ),
            *final(self) == *final(ret),
    {
        self.emit(Instr::Ds {
            num_bytes: String::from_str(num_bytes),
            starter_point: String::from_str(starter_point),
        })
    }

    /// Includes the hardware definitions file.
    pub fn include_hardware(&mut self) -> (ret: &mut Self)
        ensures
            ret@ == old(self)@.push((InstrV::Include { file: "hardware.inc"@ })),
            *final(self) == *final(ret),
    {
        self.emit(Instr::Include { file: String::from_str("hardware.inc") })
    }

    /// Includes a source file.
    pub fn include_file(&mut self, file: &str) -> (ret: &mut Self)
        ensures
            ret@ == old(self)@.push((InstrV::Include { file: file@ })),
            *final(self) == *final(ret),
    {
        self.emit(Instr::Include { file: String::from_str(file) })
    }

    /// Embeds a whole binary file.
    pub fn incbin(&mut self, file: &str) -> (ret: &mut Self)
        ensures
            ret@ == old(self)@.push((InstrV::Incbin { file: file@, offset: None, length: None })),
            *final(self) == *final(ret),
    {
        self.emit(Instr::Incbin { file: String::from_str(file), offset: None, length: None })
    }

    /// Embeds `length` bytes of a binary file from `offset`.
    pub fn incbin_range(&mut self, file: &str, offset: u32, length: u32) -> (ret: &mut Self)
        ensures
            ret@ == old(self)@.push(
                (InstrV::Incbin { file: file@, offset: Some(offset), length: Some(length) }),
            ),
            *final(self) == *final(ret),
    {
        self.emit(Instr::Incbin {
            file: String::from_str(file),
            offset: Some(offset),
            length: Some(length),
        })
    }

    /// Embeds a binary file from `offset` to its end.
    pub fn incbin_offset(&mut self, file: &str, offset: u32) -> (ret: &mut Self)
        ensures
            ret@ == old(self)@.push(
                (InstrV::Incbin { file: file@, offset: Some(offset), length: None }),
            ),
            *final(self) == *final(ret),
    {
        self.emit(
            Instr::Incbin { file: String::from_str(file), offset: Some(offset), length: None },
        )
    }

    /// Defines a constant: `DEF label EQU value`.
    pub fn def(&mut self, label: &str, value: &str) -> (ret: &mut Self)
        ensures
            ret@ == old(self)@.push((InstrV::Def { label: label@, value: value@ })),
            *final(self) == *final(ret),
    {
        self.emit(Instr::Def { label: String::from_str(label), value: String::from_str(value) })
    }

    /// Opens a section.
    pub fn section(&mut self, name: &str, mem_type: &str) -> (ret: &mut Self)
        ensures
            ret@ == old(self)@.push((InstrV::Section { name: name@, mem_type: mem_type@ })),
            *final(self) == *final(ret),
    {
        self.emit(
            Instr::Section { name: String::from_str(name), mem_type: String::from_str(mem_type) },
        )
    }

    /// Defines a label.
    pub fn label(&mut self, name: &str) -> (ret: &mut Self)
        ensures
            ret@ == old(self)@.push((InstrV::Label { name: name@ })),
            *final(self) == *final(ret),
    {
        self.emit(Instr::Label { name: String::from_str(name) })
    }

    /// Writes a comment line.
    pub fn comment(&mut self, text: &str) -> (ret: &mut Self)
        ensures
            ret@ == old(self)@.push((InstrV::Comment { text: text@ })),
            *final(self) == *final(ret),
    {
        self.emit(Instr::Comment { text: String::from_str(text) })
    }

    /// Writes byte data.
    pub fn db(&mut self, values: &str) -> (ret: &mut Self)
        ensures
            ret@ == old(self)@.push((InstrV::Db { values: values@ })),
            *final(self) == *final(ret),
    {
        self.emit(Instr::Db { values: String::from_str(values) })
    }

    /// Writes word data.
    pub fn dw(&mut self, value: &str) -> (ret: &mut Self)
        ensures
            ret@ == old(self)@.push((InstrV::Dw { value: value@ })),
            *final(self) == *final(ret),
    {
        self.emit(Instr::Dw { value: String::from_str(value) })
    }

    /// Writes a line as it is.
    pub fn raw(&mut self, line: &str) -> (ret: &mut Self)
        ensures
            ret@ == old(self)@.push((InstrV::Raw { line: line@ })),
            *final(self) == *final(ret),
    {
        self.emit(Instr::Raw { line: String::from_str(line) })
    }
}

} // verus!
