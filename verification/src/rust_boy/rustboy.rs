//! The program: constants, tiles, variables, sprites, routines and code,
//! from which the assembly source is built.

use super::animations::Animation;
use super::functions::{
    BuiltinFunction, FunctionRegistry, builtin_code, builtin_names, texts, user_code, user_names,
    users_view, defined, with_item,
};
use super::inputs::{InputManager, bindings_code};
use super::memory::MemoryRegion;
use super::sprites::{
    SpriteData, SpriteId, SpriteManager, active_flag, all_animations, clear_oam_code,
    entries_code, frame_counter_code, guarded_calls, routine_code, routine_name,
};
use super::tiles::{TileData, TileKind, TileManager, TileSource, blocks_of, copy_calls};
use super::variables::{VarId, Variable, VariableManager, init_all, sections_code, WRAM_END};
use crate::gb_asm::builder::{render_block, chunk_order};
use crate::gb_asm::{
    Asm, AsmV, Chunk, Instr, InstrV, JumpTarget, JumpTargetV, OperandV, Register, clone_instrs,
};
use crate::gb_std::flow::emittable::{blocks, call_instr, lowered};
use crate::gb_std::flow::Emittable;
use crate::gb_std::utility::{header_section, header_section_code};
use crate::text::{decimal, decimal_string, dollar_hex4, dollar_hex4_string, join3};
use crate::text_order::sorted;
use vstd::prelude::*;
use vstd::string::StringExecFns;

verus! {

/// Why a program could not be put together.
#[derive(Debug)]
pub enum BuildError {
    /// A routine was called that is neither built in nor defined. The error
    /// names the routine and the routines that can be called.
    UnknownFunction { name: String, available: Vec<String> },
    /// A memory region has no room for what was asked of it.
    RegionExhausted(MemoryRegion),
}

/// The first `k` names with a comma and a space between them.
pub open spec fn joined(names: Seq<Seq<char>>, k: int) -> Seq<char>
    decreases k,
{
    if k <= 0 || k > names.len() {
        Seq::<char>::empty()
    } else if k == 1 {
        names[0]
    } else {
        joined(names, k - 1) + ", "@ + names[k - 1]
    }
}

/// The name of a memory region.
pub open spec fn region_name(region: MemoryRegion) -> Seq<char> {
    match region {
        MemoryRegion::Vram => "VRAM"@,
        MemoryRegion::Wram => "WRAM"@,
        MemoryRegion::Oam => "OAM"@,
    }
}

impl BuildError {
    /// The error in words.
    pub open spec fn text(&self) -> Seq<char> {
        match self {
            BuildError::UnknownFunction { name, available } => "Unknown function '"@ + name@
                + "'. Available functions: "@ + joined(texts(available@), available@.len() as int),
            BuildError::RegionExhausted(region) => "Memory region exhausted: "@ + region_name(
                *region,
            ),
        }
    }

    /// The error in words.
    pub fn message(&self) -> (r: String)
        ensures
            r@ == self.text(),
    {
        match self {
            BuildError::UnknownFunction { name, available } => {
                let mut r = String::from_str("Unknown function '");
                r.append(name.as_str());
                r.append("'. Available functions: ");
                let ghost head = r@;
                let ghost names = texts(available@);
                let n: usize = available.len();
                let mut i: usize = 0;
                while i < n
                    invariant
                        n == available.len(),
                        i <= n,
                        names == texts(available@),
                        r@ == head + joined(names, i as int),
                    decreases n - i,
                {
                    if i > 0 {
                        r.append(", ");
                    }
                    r.append(available[i].as_str());
                    i = i + 1;
                }
                r
            },
            BuildError::RegionExhausted(region) => {
                let mut r = String::from_str("Memory region exhausted: ");
                match region {
                    MemoryRegion::Vram => r.append("VRAM"),
                    MemoryRegion::Wram => r.append("WRAM"),
                    MemoryRegion::Oam => r.append("OAM"),
                }
                r
            },
        }
    }
}

/// A program under construction.
pub struct RustBoy {
    /// Raw assembly that was written through [`RustBoy::raw`].
    raw_code: Asm,
    /// The tiles, with their addresses in video memory.
    pub tiles: TileManager,
    /// The variables, with their addresses in work memory.
    pub vars: VariableManager,
    /// The sprites, with their entries in object memory.
    pub sprites: SpriteManager,
    functions: FunctionRegistry,
    /// The counter that stamps the labels of conditional blocks.
    if_counter: usize,
    /// The counter that makes other labels unique.
    label_counter: usize,
    constants: Vec<(String, String)>,
    init_code: Vec<Instr>,
    main_loop_code: Vec<Instr>,
    /// The number of frames between two steps of the animations.
    animation_delay: u8,
}

/// The mathematical value of a [`RustBoy`].
pub struct RustBoyV {
    pub raw: AsmV,
    pub tiles: TileManager,
    pub vars: VariableManager,
    pub sprites: SpriteManager,
    pub functions: FunctionRegistry,
    pub if_counter: usize,
    pub label_counter: usize,
    pub constants: Seq<(Seq<char>, Seq<char>)>,
    pub init_code: Seq<InstrV>,
    pub main_loop_code: Seq<InstrV>,
    pub animation_delay: u8,
}

/// The constants as names and values.
pub open spec fn constants_view(constants: Seq<(String, String)>) -> Seq<(Seq<char>, Seq<char>)> {
    Seq::new(constants.len(), |i: int| (constants[i].0@, constants[i].1@))
}

impl View for RustBoy {
    type V = RustBoyV;

    closed spec fn view(&self) -> RustBoyV {
        RustBoyV {
            raw: self.raw_code@,
            tiles: self.tiles,
            vars: self.vars,
            sprites: self.sprites,
            functions: self.functions,
            if_counter: self.if_counter,
            label_counter: self.label_counter,
            constants: constants_view(self.constants@),
            init_code: self.init_code.deep_view(),
            main_loop_code: self.main_loop_code.deep_view(),
            animation_delay: self.animation_delay,
        }
    }
}

/// A label made unique by a counter value: the prefix, an underscore and
/// the value.
pub open spec fn numbered_label(prefix: Seq<char>, n: nat) -> Seq<char> {
    prefix + "_"@ + decimal(n)
}

/// A routine made of a body: its label, the body and a return.
pub open spec fn routine_of(name: Seq<char>, body: Seq<InstrV>) -> Seq<InstrV> {
    (seq![(InstrV::Label { name })] + body).push(InstrV::Ret)
}

impl RustBoy {
    /// An empty program. Its animations step every 8 frames.
    pub fn new() -> (r: Self)
        ensures
            r@.is_empty(),
    {
        let r = Self {
            raw_code: Asm::new(),
            tiles: TileManager::new(),
            vars: VariableManager::new(),
            sprites: SpriteManager::new(),
            functions: FunctionRegistry::new(),
            if_counter: 0,
            label_counter: 0,
            constants: Vec::new(),
            init_code: Vec::new(),
            main_loop_code: Vec::new(),
            animation_delay: 8,
        };
        assert(r@.constants =~= Seq::<(Seq<char>, Seq<char>)>::empty());
        assert(r@.main_loop_code =~= Seq::<InstrV>::empty());
        r
    }

    /// Sets the number of frames between two steps of the animations.
    pub fn set_animation_delay(&mut self, delay: u8) -> (ret: &mut Self)
        ensures
            ret@ == (RustBoyV { animation_delay: delay, ..old(self)@ }),
            *final(self) == *final(ret),
    {
        self.animation_delay = delay;
        self
    }

    /// Defines a constant with the given value, which is written out as it
    /// is.
    pub fn define_const(&mut self, name: &str, value: &str) -> (ret: &mut Self)
        ensures
            ret@ == (RustBoyV {
                constants: old(self)@.constants.push((name@, value@)),
                ..old(self)@
            }),
            *final(self) == *final(ret),
    {
        self.constants.push((String::from_str(name), String::from_str(value)));
        assert(self@.constants =~= old(self)@.constants.push((name@, value@)));
        self
    }

    /// Defines a constant whose value is written as `$` and four
    /// hexadecimal digits.
    pub fn define_const_hex(&mut self, name: &str, value: u16) -> (ret: &mut Self)
        ensures
            ret@ == (RustBoyV {
                constants: old(self)@.constants.push((name@, dollar_hex4(value as nat))),
                ..old(self)@
            }),
            *final(self) == *final(ret),
    {
        self.constants.push((String::from_str(name), dollar_hex4_string(value)));
        assert(self@.constants =~= old(self)@.constants.push((name@, dollar_hex4(value as nat))));
        self
    }

    /// Hands out the next stamp for a conditional block.
    pub fn next_if_counter(&mut self) -> (c: usize)
        requires
            old(self)@.if_counter < usize::MAX,
        ensures
            c == old(self)@.if_counter,
            final(self)@ == (RustBoyV { if_counter: (c + 1) as usize, ..old(self)@ }),
    {
        let c: usize = self.if_counter;
        self.if_counter += 1;
        c
    }

    /// Hands out the next number for a unique label.
    pub fn next_label_counter(&mut self) -> (c: usize)
        requires
            old(self)@.label_counter < usize::MAX,
        ensures
            c == old(self)@.label_counter,
            final(self)@ == (RustBoyV { label_counter: (c + 1) as usize, ..old(self)@ }),
    {
        let c: usize = self.label_counter;
        self.label_counter += 1;
        c
    }

    /// A label that no earlier call has returned: the prefix, an underscore
    /// and the next number.
    pub fn unique_label(&mut self, prefix: &str) -> (r: String)
        requires
            old(self)@.label_counter < usize::MAX,
        ensures
            r@ == numbered_label(prefix@, old(self)@.label_counter as nat),
            final(self)@ == (RustBoyV {
                label_counter: (old(self)@.label_counter + 1) as usize,
                ..old(self)@
            }),
    {
        let n: usize = self.next_label_counter();
        let digits = decimal_string(n as u64);
        join3(prefix, "_", digits.as_str())
    }

    /// Adds code that runs once at start-up. Its conditional blocks are
    /// stamped by the program's counter.
    pub fn init<E: Emittable>(&mut self, code: E) -> (ret: &mut Self)
        requires
            old(self)@.if_counter + blocks(code.node()) <= usize::MAX,
        ensures
            ret@ == (RustBoyV {
                if_counter: (old(self)@.if_counter + blocks(code.node())) as usize,
                init_code: old(self)@.init_code + lowered(
                    code.node(),
                    old(self)@.if_counter as nat,
                ),
                ..old(self)@
            }),
            *final(self) == *final(ret),
    {
        let ghost before = self.init_code.deep_view();
        let mut instrs = code.emit(&mut self.if_counter);
        let ghost added = instrs.deep_view();
        self.init_code.append(&mut instrs);
        assert(self.init_code.deep_view() =~= before + added);
        self
    }

    /// Adds code to the main loop. Its conditional blocks are stamped by
    /// the program's counter.
    pub fn add_to_main_loop<E: Emittable>(&mut self, code: E) -> (ret: &mut Self)
        requires
            old(self)@.if_counter + blocks(code.node()) <= usize::MAX,
        ensures
            ret@ == (RustBoyV {
                if_counter: (old(self)@.if_counter + blocks(code.node())) as usize,
                main_loop_code: old(self)@.main_loop_code + lowered(
                    code.node(),
                    old(self)@.if_counter as nat,
                ),
                ..old(self)@
            }),
            *final(self) == *final(ret),
    {
        let ghost before = self.main_loop_code.deep_view();
        let mut instrs = code.emit(&mut self.if_counter);
        let ghost added = instrs.deep_view();
        self.main_loop_code.append(&mut instrs);
        assert(self.main_loop_code.deep_view() =~= before + added);
        self
    }

    /// Lets `f` write raw assembly. What it writes to [`Chunk::Main`] of the
    /// builder that it is handed is written out with the program.
    pub fn raw<F: FnOnce(&mut Asm)>(&mut self, f: F) -> (ret: &mut Self)
        requires
            forall|a: &mut Asm| a@ == old(self)@.raw ==> #[trigger] f.requires((a,)),
        ensures
            exists|a: &mut Asm|
                a@ == old(self)@.raw && #[trigger] f.ensures((a,), ()) && ret@.raw == final(a)@,
            ret@ == (RustBoyV { raw: ret@.raw, ..old(self)@ }),
            *final(self) == *final(ret),
    {
        f(&mut self.raw_code);
        self
    }

    /// Marks a built-in routine as used, so that it is written out.
    pub fn use_function(&mut self, func: BuiltinFunction) -> (ret: &mut Self)
        ensures
            ret@ == (RustBoyV { functions: ret@.functions, ..old(self)@ }),
            ret@.functions.used() == with_item(old(self)@.functions.used(), func),
            ret@.functions.users() == old(self)@.functions.users(),
            ret@.functions.called() == old(self)@.functions.called(),
            *final(self) == *final(ret),
    {
        self.functions.use_function(func);
        self
    }

    /// Defines a routine; `body` holds all of it, its label included.
    pub fn define_function(&mut self, name: &str, body: Vec<Instr>) -> (ret: &mut Self)
        ensures
            ret@ == (RustBoyV { functions: ret@.functions, ..old(self)@ }),
            users_view(ret@.functions.users()) == defined(
                users_view(old(self)@.functions.users()),
                name@,
                body.deep_view(),
            ),
            ret@.functions.used() == old(self)@.functions.used(),
            ret@.functions.called() == old(self)@.functions.called(),
            *final(self) == *final(ret),
    {
        self.functions.register_user_function(name, body);
        self
    }

    /// Defines a routine from its body: the label and the return are added.
    /// The body's conditional blocks are stamped by the program's counter.
    pub fn define_function_from<E: Emittable>(&mut self, name: &str, body: E) -> (ret: &mut Self)
        requires
            old(self)@.if_counter + blocks(body.node()) <= usize::MAX,
        ensures
            ret@ == (RustBoyV {
                functions: ret@.functions,
                if_counter: (old(self)@.if_counter + blocks(body.node())) as usize,
                ..old(self)@
            }),
            users_view(ret@.functions.users()) == defined(
                users_view(old(self)@.functions.users()),
                name@,
                routine_of(name@, lowered(body.node(), old(self)@.if_counter as nat)),
            ),
            ret@.functions.used() == old(self)@.functions.used(),
            ret@.functions.called() == old(self)@.functions.called(),
            *final(self) == *final(ret),
    {
        let mut a = Asm::new();
        a.label(name);
        a.emit_all(body.emit(&mut self.if_counter));
        a.ret();
        let routine = a.get_main_instrs();
        self.functions.register_user_function(name, routine);
        self
    }

    /// The call of a routine. A built-in routine is marked as used by the
    /// call. A routine that is neither built in nor defined is refused, and
    /// the program stays as it is.
    pub fn call(&mut self, name: &str) -> (r: Result<Vec<Instr>, BuildError>)
        ensures
            r is Ok <==> old(self)@.functions.knows(name@),
            r is Ok ==> r->Ok_0.deep_view() == seq![call_instr(name@)],
            final(self)@ == (RustBoyV { functions: final(self)@.functions, ..old(self)@ }),
            final(self)@.functions.users() == old(self)@.functions.users(),
            final(self)@.functions.used() == match BuiltinFunction::named(name@) {
                Some(builtin) => with_item(old(self)@.functions.used(), builtin),
                None => old(self)@.functions.used(),
            },
            texts(final(self)@.functions.called()) == if BuiltinFunction::named(name@) is None
                && r is Ok {
                with_item(texts(old(self)@.functions.called()), name@)
            } else {
                texts(old(self)@.functions.called())
            },
            r is Err ==> r->Err_0 is UnknownFunction && r->Err_0->name@ == name@ && sorted(
                texts(r->Err_0->available@),
            ) && texts(r->Err_0->available@).to_multiset() == (builtin_names() + user_names(
                old(self)@.functions.users(),
            )).to_multiset(),
    {
        if !self.functions.call_function(name) {
            let available = self.functions.available_functions();
            return Err(BuildError::UnknownFunction { name: String::from_str(name), available });
        }
        let mut code: Vec<Instr> = Vec::new();
        let instr = Instr::Call { target: JumpTarget::Label(String::from_str(name)) };
        code.push(instr);
        Ok(code)
    }

    /// Adds the call of a routine, after the instructions that set up its
    /// arguments, to the main loop. A routine that is neither built in nor
    /// defined is refused, and nothing is added.
    pub fn call_args(&mut self, name: &str, setup: Vec<Instr>) -> (r: Result<(), BuildError>)
        ensures
            r is Ok <==> old(self)@.functions.knows(name@),
            final(self)@ == (RustBoyV {
                functions: final(self)@.functions,
                main_loop_code: if r is Ok {
                    (old(self)@.main_loop_code + setup.deep_view()).push(call_instr(name@))
                } else {
                    old(self)@.main_loop_code
                },
                ..old(self)@
            }),
            final(self)@.functions.users() == old(self)@.functions.users(),
            final(self)@.functions.used() == match BuiltinFunction::named(name@) {
                Some(builtin) => with_item(old(self)@.functions.used(), builtin),
                None => old(self)@.functions.used(),
            },
            texts(final(self)@.functions.called()) == if BuiltinFunction::named(name@) is None
                && r is Ok {
                with_item(texts(old(self)@.functions.called()), name@)
            } else {
                texts(old(self)@.functions.called())
            },
            r is Err ==> r->Err_0 is UnknownFunction && r->Err_0->name@ == name@ && sorted(
                texts(r->Err_0->available@),
            ) && texts(r->Err_0->available@).to_multiset() == (builtin_names() + user_names(
                old(self)@.functions.users(),
            )).to_multiset(),
    {
        if !self.functions.call_function(name) {
            let available = self.functions.available_functions();
            return Err(BuildError::UnknownFunction { name: String::from_str(name), available });
        }
        let ghost before = self.main_loop_code.deep_view();
        let ghost added = setup.deep_view();
        let mut setup = setup;
        self.main_loop_code.append(&mut setup);
        let instr = Instr::Call { target: JumpTarget::Label(String::from_str(name)) };
        self.main_loop_code.push(instr);
        assert(self.main_loop_code.deep_view() =~= (before + added).push(call_instr(name@)));
        Ok(())
    }

    /// Whether a routine of the given name can be called.
    pub fn function_exists(&self, name: &str) -> (r: bool)
        ensures
            r == self@.functions.knows(name@),
    {
        self.functions.function_exists(name)
    }
}

/// The chunks of a program.
pub struct Program {
    pub header: Seq<InstrV>,
    pub constants: Seq<InstrV>,
    pub init: Seq<InstrV>,
    pub main_loop: Seq<InstrV>,
    pub main: Seq<InstrV>,
    pub functions: Seq<InstrV>,
    pub data: Seq<InstrV>,
    pub tiles: Seq<InstrV>,
    pub tilemap: Seq<InstrV>,
}

impl Program {
    /// The source of the program: the chunks that hold instructions, each
    /// followed by a blank line, in the order in which chunks are written
    /// out.
    pub open spec fn text(self) -> Seq<char> {
        render_block(self.header) + render_block(self.constants) + render_block(self.init)
            + render_block(self.main_loop) + render_block(self.main) + render_block(
            self.functions,
        ) + render_block(self.data) + render_block(self.tiles) + render_block(self.tilemap)
    }

    /// Whether a builder holds the chunks of the program.
    pub open spec fn held_by(self, a: AsmV) -> bool {
        &&& a.content(Chunk::Header) == self.header
        &&& a.content(Chunk::Constants) == self.constants
        &&& a.content(Chunk::Init) == self.init
        &&& a.content(Chunk::MainLoop) == self.main_loop
        &&& a.content(Chunk::Main) == self.main
        &&& a.content(Chunk::Functions) == self.functions
        &&& a.content(Chunk::Data) == self.data
        &&& a.content(Chunk::Tiles) == self.tiles
        &&& a.content(Chunk::Tilemap) == self.tilemap
    }
}

/// A builder that holds the chunks of a program is written out as the
/// program's source.
pub proof fn lemma_program_text(program: Program, a: AsmV)
    requires
        program.held_by(a),
    ensures
        a.rendered() == program.text(),
{
    let order = chunk_order();
    assert(a.rendered_upto(order, 0) =~= Seq::<char>::empty());
    assert(a.rendered_upto(order, 2) =~= a.rendered_upto(order, 1) + render_block(
        program.constants,
    ));
    assert(a.rendered_upto(order, 4) =~= a.rendered_upto(order, 3) + render_block(
        program.main_loop,
    ));
    assert(a.rendered_upto(order, 6) =~= a.rendered_upto(order, 5) + render_block(
        program.functions,
    ));
    assert(a.rendered_upto(order, 8) =~= a.rendered_upto(order, 7) + render_block(program.tiles));
}

/// The header chunk: the hardware definitions and the cartridge header.
pub open spec fn header_chunk() -> Seq<InstrV> {
    seq![(InstrV::Include { file: "hardware.inc"@ })] + header_section_code()
}

/// The definitions of the first `k` constants.
pub open spec fn constant_defs(constants: Seq<(Seq<char>, Seq<char>)>, k: int) -> Seq<InstrV>
    decreases k,
{
    if k <= 0 || k > constants.len() {
        Seq::<InstrV>::empty()
    } else {
        constant_defs(constants, k - 1).push(
            InstrV::Def { label: constants[k - 1].0, value: constants[k - 1].1 },
        )
    }
}

/// The entry point: it waits for the vertical blank and turns the display
/// off, so that video memory can be written.
pub open spec fn entry_code() -> Seq<InstrV> {
    seq![
        InstrV::Label { name: "EntryPoint"@ },
        InstrV::Call { target: JumpTargetV::Label("WaitVBlank"@) },
        InstrV::Ld { dst: OperandV::Reg(Register::A), src: OperandV::Imm(0) },
        InstrV::Ld { dst: OperandV::AddrDef("rLCDC"@), src: OperandV::Reg(Register::A) },
    ]
}

/// Turns the display on, with background and tall objects, and sets the
/// default palettes.
pub open spec fn display_on_code() -> Seq<InstrV> {
    seq![
        InstrV::Ld {
            dst: OperandV::Reg(Register::A),
            src: OperandV::Label("LCDCF_ON | LCDCF_BGON | LCDCF_OBJON | LCDCF_OBJ16"@),
        },
        InstrV::Ld { dst: OperandV::AddrDef("rLCDC"@), src: OperandV::Reg(Register::A) },
        InstrV::Ld { dst: OperandV::Reg(Register::A), src: OperandV::Imm(0b11100100) },
        InstrV::Ld { dst: OperandV::AddrDef("rBGP"@), src: OperandV::Reg(Register::A) },
        InstrV::Ld { dst: OperandV::Reg(Register::A), src: OperandV::Imm(0b11100100) },
        InstrV::Ld { dst: OperandV::AddrDef("rOBP0"@), src: OperandV::Reg(Register::A) },
    ]
}

/// The start-up chunk: the entry point, the copies of the tiles, the
/// entries of the sprites, the user's start-up code, the initial values of
/// the variables, and the display turned on.
pub open spec fn init_chunk(
    tiles: Seq<TileData>,
    sprites: Seq<SpriteData>,
    init_code: Seq<InstrV>,
    vars: Seq<Variable>,
) -> Seq<InstrV> {
    entry_code() + (if tiles.len() > 0 {
        copy_calls(tiles, tiles.len() as int)
    } else {
        Seq::<InstrV>::empty()
    }) + (if sprites.len() > 0 {
        clear_oam_code() + entries_code(sprites, sprites.len() as int)
    } else {
        Seq::<InstrV>::empty()
    }) + init_code + init_all(vars, vars.len() as int) + display_on_code()
}

/// The start of every round of the main loop: a wait for the next
/// vertical blank.
pub open spec fn frame_wait_code() -> Seq<InstrV> {
    seq![
        InstrV::Label { name: "Main"@ },
        InstrV::Call { target: JumpTargetV::Label("WaitNotVBlank"@) },
        InstrV::Call { target: JumpTargetV::Label("WaitVBlank"@) },
    ]
}

/// The main loop: the wait, the animations if there are any, the user's
/// code, and the jump back.
pub open spec fn main_loop_chunk(
    animations: Seq<Animation>,
    delay: u8,
    main_loop_code: Seq<InstrV>,
) -> Seq<InstrV> {
    (frame_wait_code() + (if animations.len() > 0 {
        (frame_counter_code(delay) + guarded_calls(animations, animations.len() as int)).push(
            InstrV::Label { name: "AnimEnd"@ },
        )
    } else {
        Seq::<InstrV>::empty()
    }) + main_loop_code).push(InstrV::Jp { target: JumpTargetV::Label("Main"@) })
}

/// The routines of the first `k` animations.
pub open spec fn routines(animations: Seq<Animation>, k: int) -> Seq<InstrV>
    decreases k,
{
    if k <= 0 || k > animations.len() {
        Seq::<InstrV>::empty()
    } else {
        routines(animations, k - 1) + routine_code(animations[k - 1])
    }
}

/// The variables that the animations need: the frame counter and one
/// switch for each animation, which starts switched on. None where there is
/// no animation.
pub open spec fn animation_variables(animations: Seq<Animation>) -> Seq<(Seq<char>, u8)> {
    if animations.len() == 0 {
        Seq::<(Seq<char>, u8)>::empty()
    } else {
        seq![("wFrameCounter"@, 0u8)] + Seq::new(
            animations.len(),
            |i: int| (active_flag(animations[i].name@), 1u8),
        )
    }
}

/// The user's routines after the routines of the first `k` animations were
/// entered by name, with empty bodies.
pub open spec fn with_routine_names(
    users: Seq<(Seq<char>, Seq<InstrV>)>,
    animations: Seq<Animation>,
    k: int,
) -> Seq<(Seq<char>, Seq<InstrV>)>
    decreases k,
{
    if k <= 0 || k > animations.len() {
        users
    } else {
        defined(
            with_routine_names(users, animations, k - 1),
            routine_name(animations[k - 1].name@),
            Seq::<InstrV>::empty(),
        )
    }
}

/// The built-in routines that a program uses once it is built: those used
/// before, the two waits, and the copy routine when there are tiles.
pub open spec fn used_when_built(used: Seq<BuiltinFunction>, has_tiles: bool) -> Seq<
    BuiltinFunction,
> {
    let first = with_item(used, BuiltinFunction::WaitVBlank);
    let second = if has_tiles {
        with_item(first, BuiltinFunction::Memcopy)
    } else {
        first
    };
    with_item(second, BuiltinFunction::WaitNotVBlank)
}

impl RustBoyV {
    /// Whether the program is empty: nothing was added to it, its managers
    /// are new, its counters stand at 0 and its animations step every 8
    /// frames.
    pub open spec fn is_empty(self) -> bool {
        &&& self.raw == AsmV::empty()
        &&& self.functions.used() == Seq::<BuiltinFunction>::empty()
        &&& self.functions.users() == Seq::<(String, Vec<Instr>)>::empty()
        &&& self.functions.called() == Seq::<String>::empty()
        &&& self.if_counter == 0
        &&& self.label_counter == 0
        &&& self.constants == Seq::<(Seq<char>, Seq<char>)>::empty()
        &&& self.init_code == Seq::<InstrV>::empty()
        &&& self.main_loop_code == Seq::<InstrV>::empty()
        &&& self.animation_delay == 8
        &&& self.tiles.tiles() == Seq::<TileData>::empty()
        &&& self.tiles.next_sprite() == 0x8000
        &&& self.tiles.next_background() == 0x9000
        &&& self.vars.vars() == Seq::<Variable>::empty()
        &&& self.vars.sections() == Seq::<(String, Vec<VarId>)>::empty()
        &&& self.vars.next_addr() == 0xC000
        &&& self.sprites.wf()
        &&& self.sprites.sprites() == Seq::<SpriteData>::empty()
        &&& self.sprites.next_tile() == 0
    }

    /// Whether object memory and the tile indices have room for a sprite
    /// with the given tiles.
    pub open spec fn sprite_fits(self, tile_source: TileSource) -> bool {
        &&& tile_source.count() <= 255
        &&& self.sprites.sprites().len() < 40
        &&& self.sprites.next_tile() + tile_source.count() <= 255
    }

    /// The animations of all sprites.
    pub open spec fn animations(self) -> Seq<Animation> {
        all_animations(self.sprites.sprites(), self.sprites.sprites().len() as int)
    }

    /// Whether work memory has room for the variables of the animations.
    pub open spec fn can_build(self) -> bool {
        self.vars.next_addr() + animation_variables(self.animations()).len() <= WRAM_END
    }

    /// The chunks of the program that is built from `self`, in which the
    /// variables are `vars` and the used built-in routines are `used`.
    pub open spec fn program(
        self,
        vars: VariableManager,
        used: Seq<BuiltinFunction>,
    ) -> Program {
        Program {
            header: header_chunk(),
            constants: constant_defs(self.constants, self.constants.len() as int),
            init: init_chunk(
                self.tiles.tiles(),
                self.sprites.sprites(),
                self.init_code,
                vars.vars(),
            ),
            main_loop: main_loop_chunk(
                self.animations(),
                self.animation_delay,
                self.main_loop_code,
            ),
            main: self.raw.content(Chunk::Main),
            functions: builtin_code(used, used.len() as int) + user_code(
                self.functions.users(),
                self.functions.users().len() as int,
            ) + routines(self.animations(), self.animations().len() as int),
            data: sections_code(vars.vars(), vars.sections(), vars.sections().len() as int),
            tiles: blocks_of(
                self.tiles.tiles(),
                self.tiles.tiles().len() as int,
                TileKind::Sprite,
            ) + blocks_of(
                self.tiles.tiles(),
                self.tiles.tiles().len() as int,
                TileKind::Background,
            ),
            tilemap: blocks_of(
                self.tiles.tiles(),
                self.tiles.tiles().len() as int,
                TileKind::Tilemap,
            ),
        }
    }
}

impl RustBoy {
    /// The definitions of the constants.
    fn constants_code(&self) -> (r: Vec<Instr>)
        ensures
            r.deep_view() == constant_defs(self@.constants, self@.constants.len() as int),
    {
        let ghost constants = self@.constants;
        let mut a = Asm::new();
        let n: usize = self.constants.len();
        let mut i: usize = 0;
        while i < n
            invariant
                n == self.constants.len(),
                i <= n,
                constants == self@.constants,
                a@.current == Chunk::Main,
                a@.content(Chunk::Main) == constant_defs(constants, i as int),
            decreases n - i,
        {
            a.def(self.constants[i].0.as_str(), self.constants[i].1.as_str());
            i = i + 1;
        }
        a.get_main_instrs()
    }

    /// The start-up chunk.
    fn init_chunk_code(&self) -> (r: Vec<Instr>)
        requires
            self@.sprites.wf(),
        ensures
            r.deep_view() == init_chunk(
                self@.tiles.tiles(),
                self@.sprites.sprites(),
                self@.init_code,
                self@.vars.vars(),
            ),
    {
        let mut a = Asm::new();
        a.label("EntryPoint");
        a.call("WaitVBlank");
        a.ld_a(0);
        a.ld_addr_def_a("rLCDC");
        if !self.tiles.is_empty() {
            a.emit_all(self.tiles.generate_memcopy_calls());
        }
        if !self.sprites.is_empty() {
            a.emit_all(self.sprites.generate_init_code());
        }
        a.emit_all(clone_instrs(&self.init_code));
        a.emit_all(self.vars.generate_init_code());
        a.ld_a_label("LCDCF_ON | LCDCF_BGON | LCDCF_OBJON | LCDCF_OBJ16");
        a.ld_addr_def_a("rLCDC");
        a.ld_a(0b11100100);
        a.ld_addr_def_a("rBGP");
        a.ld_a(0b11100100);
        a.ld_addr_def_a("rOBP0");
        a.get_main_instrs()
    }

    /// The main loop.
    fn main_loop_chunk_code(&self) -> (r: Vec<Instr>)
        requires
            self@.sprites.wf(),
        ensures
            r.deep_view() == main_loop_chunk(
                self@.animations(),
                self@.animation_delay,
                self@.main_loop_code,
            ),
    {
        let mut a = Asm::new();
        a.label("Main");
        a.call("WaitNotVBlank");
        a.call("WaitVBlank");
        if self.sprites.has_animations() {
            a.emit_all(self.sprites.generate_animation_calls(self.animation_delay));
        }
        a.emit_all(clone_instrs(&self.main_loop_code));
        a.jp("Main");
        a.get_main_instrs()
    }

    /// The routines of the animations, which are entered by name among the
    /// user's routines.
    fn animation_routines(&mut self) -> (r: Vec<Instr>)
        requires
            old(self)@.sprites.wf(),
        ensures
            r.deep_view() == routines(
                old(self)@.animations(),
                old(self)@.animations().len() as int,
            ),
            final(self)@ == (RustBoyV { functions: final(self)@.functions, ..old(self)@ }),
            final(self)@.functions.used() == old(self)@.functions.used(),
            final(self)@.functions.called() == old(self)@.functions.called(),
            users_view(final(self)@.functions.users()) == with_routine_names(
                users_view(old(self)@.functions.users()),
                old(self)@.animations(),
                old(self)@.animations().len() as int,
            ),
    {
        let ghost animations = self@.animations();
        let ghost users = users_view(self@.functions.users());
        let functions = self.sprites.generate_animation_functions();
        let mut out: Vec<Instr> = Vec::new();
        let n: usize = functions.len();
        let mut i: usize = 0;
        while i < n
            invariant
                n == functions@.len(),
                n == animations.len(),
                i <= n,
                forall|k: int|
                    0 <= k < n ==> (#[trigger] functions@[k]).0@ == routine_name(
                        animations[k].name@,
                    ) && functions@[k].1.deep_view() == routine_code(animations[k]),
                out.deep_view() == routines(animations, i as int),
                self@ == (RustBoyV { functions: self@.functions, ..old(self)@ }),
                self@.functions.used() == old(self)@.functions.used(),
                self@.functions.called() == old(self)@.functions.called(),
                users_view(self@.functions.users()) == with_routine_names(
                    users,
                    animations,
                    i as int,
                ),
            decreases n - i,
        {
            let empty: Vec<Instr> = Vec::new();
            assert(empty.deep_view() =~= Seq::<InstrV>::empty());
            self.functions.register_user_function(functions[i].0.as_str(), empty);
            let mut body = clone_instrs(&functions[i].1);
            out.append(&mut body);
            i = i + 1;
        }
        out
    }

    /// Builds the source of the program.
    ///
    /// The variables that the animations need are created first; when work
    /// memory has no room for them, the build is refused and the program
    /// stays as it is. The routines that the program itself calls are marked
    /// as used, and the routines of the animations are entered by name.
    pub fn build(&mut self) -> (r: Result<String, BuildError>)
        requires
            old(self)@.sprites.wf(),
        ensures
            r is Ok <==> old(self)@.can_build(),
            r is Err ==> r->Err_0 == BuildError::RegionExhausted(MemoryRegion::Wram)
                && final(self)@ == old(self)@,
            r is Ok ==> {
                &&& final(self)@ == (RustBoyV {
                    vars: final(self)@.vars,
                    functions: final(self)@.functions,
                    ..old(self)@
                })
                &&& final(self)@.vars.extended_by(
                    &old(self)@.vars,
                    animation_variables(old(self)@.animations()),
                )
                &&& final(self)@.functions.used() == used_when_built(
                    old(self)@.functions.used(),
                    old(self)@.tiles.tiles().len() > 0,
                )
                &&& final(self)@.functions.called() == old(self)@.functions.called()
                &&& users_view(final(self)@.functions.users()) == with_routine_names(
                    users_view(old(self)@.functions.users()),
                    old(self)@.animations(),
                    old(self)@.animations().len() as int,
                )
                &&& r->Ok_0@ == old(self)@.program(
                    final(self)@.vars,
                    final(self)@.functions.used(),
                ).text()
            },
    {
        let ghost animations = self@.animations();
        // The variables of the animations.
        let switches = self.sprites.get_animation_variables();
        let mut items: Vec<(String, u8)> = Vec::new();
        if switches.len() > 0 {
            items.push((String::from_str("wFrameCounter"), 0));
            let mut switches = switches;
            items.append(&mut switches);
        }
        if !self.vars.create_all_u8(&items) {
            return Err(BuildError::RegionExhausted(MemoryRegion::Wram));
        }
        // The routines that the program calls.
        self.functions.use_function(BuiltinFunction::WaitVBlank);
        if !self.tiles.is_empty() {
            self.functions.use_function(BuiltinFunction::Memcopy);
        }
        self.functions.use_function(BuiltinFunction::WaitNotVBlank);
        let ghost program = old(self)@.program(self@.vars, self@.functions.used());

        let mut a = Asm::new();
        a.chunk(Chunk::Header);
        a.include_hardware();
        a.emit_all(header_section());

        a.chunk(Chunk::Constants);
        a.emit_all(self.constants_code());

        a.chunk(Chunk::Init);
        a.emit_all(self.init_chunk_code());

        a.chunk(Chunk::MainLoop);
        a.emit_all(self.main_loop_chunk_code());

        a.chunk(Chunk::Data);
        a.emit_all(self.vars.generate_sections());

        a.chunk(Chunk::Functions);
        a.emit_all(self.functions.generate_all());
        a.emit_all(self.animation_routines());

        a.chunk(Chunk::Tiles);
        a.emit_all(self.tiles.generate_tile_data());

        a.chunk(Chunk::Tilemap);
        a.emit_all(self.tiles.generate_tilemap_data());

        let existing = self.raw_code.get_main_instrs();
        if existing.len() > 0 {
            a.chunk(Chunk::Main);
            a.emit_all(existing);
        }
        assert(a@.content(Chunk::Main) =~= program.main);
        proof {
            lemma_program_text(program, a@);
        }
        Ok(a.to_asm())
    }

    /// Adds the handling of the joypad to the main loop: the call of the
    /// routine that polls it, and the checks of the bindings. The routine is
    /// marked as used and its two variables are created. Nothing happens
    /// when there are no bindings. When work memory has no room for the
    /// variables, the bindings are refused and the program stays as it is.
    pub fn add_inputs(&mut self, inputs: InputManager) -> (r: Result<(), BuildError>)
        ensures
            inputs@.len() == 0 ==> r is Ok && final(self)@ == old(self)@,
            inputs@.len() > 0 ==> (r is Ok <==> old(self)@.vars.next_addr() + 2 <= WRAM_END),
            r is Err ==> r->Err_0 == BuildError::RegionExhausted(MemoryRegion::Wram)
                && final(self)@ == old(self)@,
            inputs@.len() > 0 && r is Ok ==> {
                &&& final(self)@ == (RustBoyV {
                    vars: final(self)@.vars,
                    functions: final(self)@.functions,
                    main_loop_code: old(self)@.main_loop_code.push(call_instr("UpdateKeys"@))
                        + bindings_code(inputs@, inputs@.len() as int),
                    ..old(self)@
                })
                &&& final(self)@.vars.extended_by(
                    &old(self)@.vars,
                    seq![("wCurKeys"@, 0u8), ("wNewKeys"@, 0u8)],
                )
                &&& final(self)@.functions.used() == with_item(
                    old(self)@.functions.used(),
                    BuiltinFunction::UpdateKeys,
                )
                &&& final(self)@.functions.users() == old(self)@.functions.users()
                &&& final(self)@.functions.called() == old(self)@.functions.called()
            },
    {
        if inputs.is_empty() {
            return Ok(());
        }
        let mut items: Vec<(String, u8)> = Vec::new();
        items.push((String::from_str("wCurKeys"), 0));
        items.push((String::from_str("wNewKeys"), 0));
        if !self.vars.create_all_u8(&items) {
            return Err(BuildError::RegionExhausted(MemoryRegion::Wram));
        }
        self.functions.use_function(BuiltinFunction::UpdateKeys);
        let ghost before = self.main_loop_code.deep_view();
        let instr = Instr::Call { target: JumpTarget::Label(String::from_str("UpdateKeys")) };
        self.main_loop_code.push(instr);
        let mut checks = inputs.generate_code();
        let ghost added = checks.deep_view();
        self.main_loop_code.append(&mut checks);
        assert(self.main_loop_code.deep_view() =~= before.push(call_instr("UpdateKeys"@)) + added);
        Ok(())
    }

    /// Adds a sprite together with its tiles. The tiles are given the next
    /// address of the sprite tiles, the sprite the next entry of object
    /// memory. When the tiles are too many for a sprite, or object memory or
    /// the tile indices are used up, the sprite is refused for object
    /// memory; when video memory has no room for the tiles, it is refused
    /// for video memory. A refused sprite changes nothing.
    pub fn add_sprite(
        &mut self,
        name: &str,
        tile_source: TileSource,
        x: u8,
        y: u8,
        flags: u8,
    ) -> (r: Result<SpriteId, BuildError>)
        requires
            old(self)@.sprites.wf(),
            x <= 247,
            y <= 239,
        ensures
            final(self)@.sprites.wf(),
            final(self)@ == (RustBoyV {
                tiles: final(self)@.tiles,
                sprites: final(self)@.sprites,
                ..old(self)@
            }),
            r is Err ==> final(self)@ == old(self)@,
            r is Ok ==> {
                let sprites = old(self)@.sprites.sprites().len() as int;
                let added = final(self)@.sprites.sprites()[sprites];
                &&& r->Ok_0.0 == sprites
                &&& final(self)@.tiles.extended(
                    &old(self)@.tiles,
                    name@,
                    tile_source,
                    old(self)@.tiles.next_sprite(),
                    TileKind::Sprite,
                )
                &&& final(self)@.sprites.sprites().len() == sprites + 1
                &&& final(self)@.sprites.sprites().take(sprites) == old(self)@.sprites.sprites()
                &&& final(self)@.sprites.next_tile() == old(self)@.sprites.next_tile()
                    + tile_source.count()
                &&& final(self)@.tiles.next_sprite() == old(self)@.tiles.next_sprite()
                    + tile_source.byte_size()
                &&& final(self)@.tiles.next_background() == old(self)@.tiles.next_background()
                &&& added.oam_index == sprites
                &&& added.animations@ == Seq::<Animation>::empty()
                &&& added.name@ == name@
                &&& added.x == x
                &&& added.y == y
                &&& added.flags == flags
                &&& added.tile_index == old(self)@.sprites.next_tile()
                &&& added.tile_id.0 == old(self)@.tiles.tiles().len()
            },
            r == Err::<SpriteId, BuildError>(BuildError::RegionExhausted(MemoryRegion::Oam))
                <==> !old(self)@.sprite_fits(tile_source),
            r is Ok <==> old(self)@.sprite_fits(tile_source) && old(self)@.tiles.next_sprite()
                + tile_source.byte_size() <= 0x9000,
    {
        let count: usize = tile_source.tile_count();
        if count > 255 || !self.sprites.can_add(count as u8) {
            return Err(BuildError::RegionExhausted(MemoryRegion::Oam));
        }
        match self.tiles.add_sprite(name, tile_source) {
            None => Err(BuildError::RegionExhausted(MemoryRegion::Vram)),
            Some(tile_id) => {
                let made = self.sprites.add(name, x, y, flags, count as u8);
                let sprite_id = made.unwrap();
                self.sprites.set_tile_id(sprite_id, tile_id);
                Ok(sprite_id)
            },
        }
    }
}

impl Default for RustBoy {
    fn default() -> (r: Self)
        ensures
            r@.is_empty(),
    {
        Self::new()
    }
}

} // verus!
