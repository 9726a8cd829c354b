//! Sprites in object memory.
//!
//! Object memory holds 40 entries of four bytes each. An entry with index
//! `id` starts at `_OAMRAM + id * 4`.

use crate::gb_asm::{Asm, Chunk, Condition, Instr, InstrV, JumpTargetV, Operand, OperandV, Register};
use crate::text::{decimal, decimal_string, join2};
use vstd::prelude::*;
use vstd::string::StringExecFns;

verus! {

/// The number of entries in object memory.
pub const OAM_ENTRIES: u8 = 40;

/// The loop that clears object memory.
pub open spec fn clear_objects_screen_code() -> Seq<InstrV> {
    seq![
        InstrV::Label { name: "ClearOam"@ },
        InstrV::Ld { dst: OperandV::AddrRegInc(Register::HL), src: OperandV::Label("a"@) },
        InstrV::Dec { operand: OperandV::Label("b"@) },
        InstrV::JpCond { condition: Condition::NZ, target: JumpTargetV::Label("ClearOam"@) },
    ]
}

/// The loop that clears object memory; `hl` points at it, `b` counts its bytes
/// and `a` holds the fill value.
pub fn clear_objects_screen() -> (r: Vec<Instr>)
    ensures
        r.deep_view() == clear_objects_screen_code(),
{
    let mut a = Asm::new();
    a.label("ClearOam");
    a.ld(Operand::AddrRegInc(Register::HL), Operand::Label(String::from_str("a")));
    a.dec(Operand::Label(String::from_str("b")));
    a.jp_cond(Condition::NZ, "ClearOam");
    a.get_main_instrs()
}

/// The register setup before object memory is cleared.
pub open spec fn initialize_objects_screen_code() -> Seq<InstrV> {
    seq![
        InstrV::Ld { dst: OperandV::Reg(Register::A), src: OperandV::Imm(0) },
        InstrV::Ld { dst: OperandV::Reg(Register::B), src: OperandV::Imm(160) },
        InstrV::Ld { dst: OperandV::Reg(Register::HL), src: OperandV::Label("_OAMRAM"@) },
    ]
}

/// Sets up the registers for clearing object memory: the fill value 0, its 160
/// bytes and its address.
pub fn initialize_objects_screen() -> (r: Vec<Instr>)
    ensures
        r.deep_view() == initialize_objects_screen_code(),
{
    let mut a = Asm::new();
    a.ld(Operand::Reg(Register::A), Operand::Imm(0));
    a.ld(Operand::Reg(Register::B), Operand::Imm(160));
    a.ld(Operand::Reg(Register::HL), Operand::Label(String::from_str("_OAMRAM")));
    a.get_main_instrs()
}

/// A sprite: an entry of object memory and what it shows.
pub struct Sprite {
    pub id: u8,
    pub x: u8,
    pub y: u8,
    pub tile: u8,
    pub flags: u8,
}

/// The sprites of a program, in the order in which they were added.
pub struct SpriteManager {
    sprites: Vec<Sprite>,
    current_sprite_index: u8,
}

/// The name of the byte at `offset` in object memory.
pub open spec fn oam_byte(offset: nat) -> Seq<char> {
    "_OAMRAM+"@ + decimal(offset)
}

/// Loads the accumulator with a byte and stores it at the address in `hl`,
/// which moves on.
pub open spec fn write_byte(value: u8) -> Seq<InstrV> {
    seq![
        InstrV::Ld { dst: OperandV::Reg(Register::A), src: OperandV::Imm(value) },
        InstrV::Ld { dst: OperandV::AddrRegInc(Register::HL), src: OperandV::Label("a"@) },
    ]
}

/// The four bytes of a sprite's entry: its row plus 16, its column plus 8,
/// its tile and its flags.
pub open spec fn draw_code(sprite: Sprite) -> Seq<InstrV> {
    write_byte((sprite.y + 16) as u8) + write_byte((sprite.x + 8) as u8) + write_byte(sprite.tile)
        + write_byte(sprite.flags)
}

/// Adds `distance` to the accumulator, or subtracts it.
pub open spec fn step(adds: bool, distance: u8) -> InstrV {
    if adds {
        InstrV::Add { dst: OperandV::Reg(Register::A), src: OperandV::Imm(distance) }
    } else {
        InstrV::Sub { dst: OperandV::Reg(Register::A), src: OperandV::Imm(distance) }
    }
}

/// A move: between the labels `name` and `name` followed by `End`, the byte
/// at `offset` in object memory is loaded, changed by `distance` and stored.
pub open spec fn move_code(name: Seq<char>, offset: nat, adds: bool, distance: u8) -> Seq<
    InstrV,
> {
    seq![
        InstrV::Label { name },
        InstrV::Ld { dst: OperandV::Reg(Register::A), src: OperandV::AddrDef(oam_byte(offset)) },
        step(adds, distance),
        InstrV::Ld { dst: OperandV::AddrDef(oam_byte(offset)), src: OperandV::Reg(Register::A) },
        InstrV::Label { name: name + "End"@ },
    ]
}

/// A move that stops at a limit: as [`move_code`], but the new value is not
/// stored when it equals `limit`.
pub open spec fn move_limit_code(
    name: Seq<char>,
    offset: nat,
    adds: bool,
    distance: u8,
    limit: u8,
) -> Seq<InstrV> {
    seq![
        InstrV::Label { name },
        InstrV::Ld { dst: OperandV::Reg(Register::A), src: OperandV::AddrDef(oam_byte(offset)) },
        step(adds, distance),
        InstrV::Cp { operand: OperandV::Imm(limit) },
        InstrV::JpCond { condition: Condition::Z, target: JumpTargetV::Label(name + "End"@) },
        InstrV::Ld { dst: OperandV::AddrDef(oam_byte(offset)), src: OperandV::Reg(Register::A) },
        InstrV::Label { name: name + "End"@ },
    ]
}

/// The position of a sprite's pivot: its row without the offset of
/// `16 + y_offset` in `c`, its column without `8 + x_offset` in `b`.
pub open spec fn pivot_code(id: u8, x_offset: u8, y_offset: u8) -> Seq<InstrV> {
    seq![
        InstrV::Ld {
            dst: OperandV::Reg(Register::A),
            src: OperandV::AddrDef(oam_byte((id * 4) as nat)),
        },
        InstrV::Sub {
            dst: OperandV::Reg(Register::A),
            src: OperandV::Imm((16 + y_offset) as u8),
        },
        InstrV::Ld { dst: OperandV::Reg(Register::C), src: OperandV::Reg(Register::A) },
        InstrV::Ld {
            dst: OperandV::Reg(Register::A),
            src: OperandV::AddrDef(oam_byte((id * 4 + 1) as nat)),
        },
        InstrV::Sub { dst: OperandV::Reg(Register::A), src: OperandV::Imm((8 + x_offset) as u8) },
        InstrV::Ld { dst: OperandV::Reg(Register::B), src: OperandV::Reg(Register::A) },
    ]
}

/// The name of the byte at `offset` in object memory.
pub fn oam_byte_name(offset: u8) -> (r: String)
    ensures
        r@ == oam_byte(offset as nat),
{
    let digits = decimal_string(offset as u64);
    join2("_OAMRAM+", digits.as_str())
}

/// Adds `distance` to the accumulator, or subtracts it.
fn emit_step(a: &mut Asm, adds: bool, distance: u8)
    ensures
        final(a)@ == old(a)@.push(step(adds, distance)),
{
    if adds {
        a.add(Operand::Reg(Register::A), Operand::Imm(distance));
    } else {
        a.sub(Operand::Reg(Register::A), Operand::Imm(distance));
    }
}

/// The instructions of a move.
fn make_move(name: &str, offset: u8, adds: bool, distance: u8) -> (r: Vec<Instr>)
    ensures
        r.deep_view() == move_code(name@, offset as nat, adds, distance),
{
    let byte = oam_byte_name(offset);
    let end = join2(name, "End");
    let mut a = Asm::new();
    a.label(name);
    a.ld_a_addr_def(byte.as_str());
    emit_step(&mut a, adds, distance);
    a.ld_addr_def_a(byte.as_str());
    a.label(end.as_str());
    a.get_main_instrs()
}

/// The instructions of a move that stops at a limit.
fn make_move_limit(name: &str, offset: u8, adds: bool, distance: u8, limit: u8) -> (r: Vec<Instr>)
    ensures
        r.deep_view() == move_limit_code(name@, offset as nat, adds, distance, limit),
{
    let byte = oam_byte_name(offset);
    let end = join2(name, "End");
    let mut a = Asm::new();
    a.label(name);
    a.ld_a_addr_def(byte.as_str());
    emit_step(&mut a, adds, distance);
    a.cp(Operand::Imm(limit));
    a.jp_cond(Condition::Z, end.as_str());
    a.ld_addr_def_a(byte.as_str());
    a.label(end.as_str());
    a.get_main_instrs()
}

impl Sprite {
    /// Whether the sprite's position, with the screen offsets added, fits a
    /// byte.
    pub open spec fn drawable(&self) -> bool {
        self.y <= 239 && self.x <= 247
    }

    /// Whether the sprite's entry lies in object memory.
    pub open spec fn in_oam(&self) -> bool {
        self.id < OAM_ENTRIES
    }

    /// A sprite with the given entry, position, tile and flags.
    pub fn new(id: u8, x: u8, y: u8, tile: u8, flags: u8) -> (r: Self)
        ensures
            r == (Sprite { id, x, y, tile, flags }),
    {
        Sprite { id, x, y, tile, flags }
    }

    /// Writes the sprite's entry at the address in `hl`.
    pub fn draw(&self) -> (r: Vec<Instr>)
        requires
            self.drawable(),
        ensures
            r.deep_view() == draw_code(*self),
    {
        let mut a = Asm::new();
        a.ld_a(self.y + 16).ld_hli_label("a").ld_a(self.x + 8).ld_hli_label("a").ld_a(
            self.tile,
        ).ld_hli_label("a").ld_a(self.flags).ld_hli_label("a");
        a.get_main_instrs()
    }

    /// Adds `distance` to the second byte of the sprite's entry.
    pub fn move_left(&mut self, distance: u8) -> (r: Vec<Instr>)
        requires
            old(self).in_oam(),
        ensures
            *final(self) == *old(self),
            r.deep_view() == move_code("Left"@, (old(self).id * 4 + 1) as nat, true, distance),
    {
        make_move("Left", self.id * 4 + 1, true, distance)
    }

    /// Subtracts `distance` from the second byte of the sprite's entry.
    pub fn move_right(&mut self, distance: u8) -> (r: Vec<Instr>)
        requires
            old(self).in_oam(),
        ensures
            *final(self) == *old(self),
            r.deep_view() == move_code("Right"@, (old(self).id * 4 + 1) as nat, false, distance),
    {
        make_move("Right", self.id * 4 + 1, false, distance)
    }

    /// Subtracts `distance` from the third byte of the sprite's entry.
    pub fn move_up(&mut self, distance: u8) -> (r: Vec<Instr>)
        requires
            old(self).in_oam(),
        ensures
            *final(self) == *old(self),
            r.deep_view() == move_code("Up"@, (old(self).id * 4 + 2) as nat, false, distance),
    {
        make_move("Up", self.id * 4 + 2, false, distance)
    }

    /// Adds `distance` to the third byte of the sprite's entry.
    pub fn move_down(&mut self, distance: u8) -> (r: Vec<Instr>)
        requires
            old(self).in_oam(),
        ensures
            *final(self) == *old(self),
            r.deep_view() == move_code("Down"@, (old(self).id * 4 + 2) as nat, true, distance),
    {
        make_move("Down", self.id * 4 + 2, true, distance)
    }

    /// As [`Sprite::move_left`], but the byte keeps its value where the new
    /// one would equal `limit`.
    pub fn move_left_limit(&mut self, distance: u8, limit: u8) -> (r: Vec<Instr>)
        requires
            old(self).in_oam(),
        ensures
            *final(self) == *old(self),
            r.deep_view() == move_limit_code(
                "LeftLimit"@,
                (old(self).id * 4 + 1) as nat,
                true,
                distance,
                limit,
            ),
    {
        make_move_limit("LeftLimit", self.id * 4 + 1, true, distance, limit)
    }

    /// As [`Sprite::move_right`], but the byte keeps its value where the new
    /// one would equal `limit`.
    pub fn move_right_limit(&mut self, distance: u8, limit: u8) -> (r: Vec<Instr>)
        requires
            old(self).in_oam(),
        ensures
            *final(self) == *old(self),
            r.deep_view() == move_limit_code(
                "RightLimit"@,
                (old(self).id * 4 + 1) as nat,
                false,
                distance,
                limit,
            ),
    {
        make_move_limit("RightLimit", self.id * 4 + 1, false, distance, limit)
    }

    /// As [`Sprite::move_up`], but the byte keeps its value where the new
    /// one would equal `limit`.
    pub fn move_up_limit(&mut self, distance: u8, limit: u8) -> (r: Vec<Instr>)
        requires
            old(self).in_oam(),
        ensures
            *final(self) == *old(self),
            r.deep_view() == move_limit_code(
                "UpLimit"@,
                (old(self).id * 4 + 2) as nat,
                false,
                distance,
                limit,
            ),
    {
        make_move_limit("UpLimit", self.id * 4 + 2, false, distance, limit)
    }

    /// As [`Sprite::move_down`], but the byte keeps its value where the new
    /// one would equal `limit`.
    pub fn move_down_limit(&mut self, distance: u8, limit: u8) -> (r: Vec<Instr>)
        requires
            old(self).in_oam(),
        ensures
            *final(self) == *old(self),
            r.deep_view() == move_limit_code(
                "DownLimit"@,
                (old(self).id * 4 + 2) as nat,
                true,
                distance,
                limit,
            ),
    {
        make_move_limit("DownLimit", self.id * 4 + 2, true, distance, limit)
    }

    /// Loads the sprite's pivot into `b` (column) and `c` (row), moved by
    /// the given offsets.
    pub fn get_pivot(&self, x_offset: u8, y_offset: u8) -> (r: Vec<Instr>)
        requires
            self.in_oam(),
            x_offset <= 247,
            y_offset <= 239,
        ensures
            r.deep_view() == pivot_code(self.id, x_offset, y_offset),
    {
        let row = oam_byte_name(self.id * 4);
        let column = oam_byte_name(self.id * 4 + 1);
        let mut a = Asm::new();
        a.ld_a_addr_def(row.as_str()).sub(
            Operand::Reg(Register::A),
            Operand::Imm(16 + y_offset),
        ).ld(Operand::Reg(Register::C), Operand::Reg(Register::A)).ld_a_addr_def(
            column.as_str(),
        ).sub(Operand::Reg(Register::A), Operand::Imm(8 + x_offset)).ld(
            Operand::Reg(Register::B),
            Operand::Reg(Register::A),
        );
        a.get_main_instrs()
    }
}

/// The entries of the first `k` sprites, one after the other.
pub open spec fn draw_all(sprites: Seq<Sprite>, k: int) -> Seq<InstrV>
    decreases k,
{
    if k <= 0 || k > sprites.len() {
        Seq::<InstrV>::empty()
    } else {
        draw_all(sprites, k - 1) + draw_code(sprites[k - 1])
    }
}

/// The index of the first sprite with the given entry; the length where
/// there is none.
pub open spec fn index_of_id(sprites: Seq<Sprite>, id: u8) -> int
    decreases sprites.len(),
{
    if sprites.len() == 0 {
        0
    } else if sprites.first().id == id {
        0
    } else {
        1 + index_of_id(sprites.drop_first(), id)
    }
}

/// The first sprite with an entry is found at an index within bounds, and
/// no sprite before it has that entry.
pub proof fn lemma_index_of_id(sprites: Seq<Sprite>, id: u8, i: int)
    requires
        0 <= i <= sprites.len(),
        forall|j: int| 0 <= j < i ==> (#[trigger] sprites[j]).id != id,
        i < sprites.len() ==> sprites[i].id == id,
    ensures
        index_of_id(sprites, id) == i,
    decreases sprites.len(),
{
    if sprites.len() > 0 && i > 0 {
        let rest = sprites.drop_first();
        lemma_index_of_id(rest, id, i - 1);
    }
}

impl View for SpriteManager {
    type V = Seq<Sprite>;

    closed spec fn view(&self) -> Seq<Sprite> {
        self.sprites@
    }
}

impl SpriteManager {
    /// The sprites number their entries from 0 in the order in which they
    /// were added, and there are no more of them than object memory holds.
    pub closed spec fn wf(&self) -> bool {
        &&& self.sprites.len() == self.current_sprite_index
        &&& self.current_sprite_index <= OAM_ENTRIES
    }

    /// A manager without sprites.
    pub fn new() -> (r: Self)
        ensures
            r.wf(),
            r@ == Seq::<Sprite>::empty(),
    {
        SpriteManager { sprites: Vec::new(), current_sprite_index: 0 }
    }

    /// Adds a sprite in the next free entry of object memory. Returns
    /// `false`, and adds nothing, when object memory is full.
    pub fn add_sprite(&mut self, x: u8, y: u8, tile: u8, flags: u8) -> (added: bool)
        requires
            old(self).wf(),
        ensures
            final(self).wf(),
            added == (old(self)@.len() < OAM_ENTRIES),
            added ==> final(self)@ == old(self)@.push(
                (Sprite { id: old(self)@.len() as u8, x, y, tile, flags }),
            ),
            !added ==> final(self)@ == old(self)@,
    {
        if self.current_sprite_index >= OAM_ENTRIES {
            return false;
        }
        let sprite = Sprite::new(self.current_sprite_index, x, y, tile, flags);
        self.sprites.push(sprite);
        self.current_sprite_index += 1;
        true
    }

    /// Writes all entries to object memory, in the order of the sprites.
    pub fn draw(&self) -> (r: Vec<Instr>)
        requires
            forall|i: int| 0 <= i < self@.len() ==> (#[trigger] self@[i]).drawable(),
        ensures
            r.deep_view() == seq![
                (InstrV::Ld {
                    dst: OperandV::Reg(Register::HL),
                    src: OperandV::Label("_OAMRAM"@),
                }),
            ] + draw_all(self@, self@.len() as int),
    {
        let ghost head = seq![
            (InstrV::Ld { dst: OperandV::Reg(Register::HL), src: OperandV::Label("_OAMRAM"@) }),
        ];
        let mut a = Asm::new();
        a.ld_hl_label("_OAMRAM");
        let n: usize = self.sprites.len();
        let mut i: usize = 0;
        while i < n
            invariant
                n == self.sprites.len(),
                i <= n,
                forall|k: int| 0 <= k < self@.len() ==> (#[trigger] self@[k]).drawable(),
                a@.current == Chunk::Main,
                a@.content(Chunk::Main) == head + draw_all(self@, i as int),
            decreases n - i,
        {
            a.emit_all(self.sprites[i].draw());
            i = i + 1;
        }
        a.get_main_instrs()
    }

    /// The first sprite with the given entry.
    pub fn get_sprite(&self, id: u8) -> (r: Option<&Sprite>)
        ensures
            r is Some <==> index_of_id(self@, id) < self@.len(),
            r is Some ==> *r->0 == self@[index_of_id(self@, id)],
    {
        let n: usize = self.sprites.len();
        let mut i: usize = 0;
        while i < n
            invariant
                n == self.sprites.len(),
                i <= n,
                forall|j: int| 0 <= j < i ==> (#[trigger] self@[j]).id != id,
            decreases n - i,
        {
            if self.sprites[i].id == id {
                proof {
                    lemma_index_of_id(self@, id, i as int);
                }
                return Some(&self.sprites[i]);
            }
            i = i + 1;
        }
        proof {
            lemma_index_of_id(self@, id, n as int);
        }
        None
    }

    /// The first sprite with the given entry, for changing it.
    pub fn get_sprite_mut(&mut self, id: u8) -> (r: Option<&mut Sprite>)
        ensures
            r is Some <==> index_of_id(old(self)@, id) < old(self)@.len(),
            r is Some ==> *r->0 == old(self)@[index_of_id(old(self)@, id)],
            r is Some ==> final(self)@ == old(self)@.update(
                index_of_id(old(self)@, id),
                *final(r->0),
            ),
            r is None ==> final(self)@ == old(self)@,
    {
        let n: usize = self.sprites.len();
        let mut i: usize = 0;
        while i < n
            invariant
                n == self.sprites.len(),
                i <= n,
                *self == *old(self),
                forall|j: int| 0 <= j < i ==> (#[trigger] self@[j]).id != id,
            decreases n - i,
        {
            if self.sprites[i].id == id {
                proof {
                    lemma_index_of_id(self@, id, i as int);
                }
                return Some(&mut self.sprites[i]);
            }
            i = i + 1;
        }
        proof {
            lemma_index_of_id(self@, id, n as int);
        }
        None
    }
}

} // verus!
