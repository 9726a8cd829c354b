//! Sprites with their entries in object memory, their tiles and their
//! animations.
//!
//! Sprites are given the entries of object memory in the order in which
//! they are added, and tile indices one after the other. Object memory
//! holds 40 entries and a tile index is one byte: a sprite that does not
//! fit is refused.

use super::animations::{Animation, AnimationType};
use super::tiles::TileId;
use crate::gb_asm::{Asm, Chunk, Condition, Instr, InstrV, JumpTargetV, Operand, OperandV, Register};
use crate::gb_std::graphics::sprites::{oam_byte, oam_byte_name, step, write_byte, OAM_ENTRIES};
use crate::text::{decimal, decimal_string, join2, join3};
use vstd::prelude::*;
use vstd::string::StringExecFns;

verus! {

/// Identifies a sprite: sprites are numbered from 0 in the order in which
/// they were added.
#[derive(Debug, Clone, Copy, PartialEq, Eq, Hash, Structural)]
pub struct SpriteId(pub usize);

/// What the manager keeps of a sprite.
#[derive(Debug)]
pub struct SpriteData {
    pub name: String,
    /// The sprite's tiles; `TileId(usize::MAX)` until they are recorded.
    pub tile_id: TileId,
    pub oam_index: u8,
    pub x: u8,
    pub y: u8,
    pub tile_index: u8,
    pub flags: u8,
    pub animations: Vec<Animation>,
}

/// Adds sprites and makes the instructions that show, move and animate
/// them.
#[derive(Debug)]
pub struct SpriteManager {
    sprites: Vec<SpriteData>,
    next_tile_index: u8,
}

/// The name of the variable that switches the animation `name` on and off.
pub open spec fn active_flag(name: Seq<char>) -> Seq<char> {
    "wAnim_"@ + name + "_Active"@
}

/// The name of the routine that steps the animation `name`.
pub open spec fn routine_name(name: Seq<char>) -> Seq<char> {
    "Anim_"@ + name
}

/// Sets the switch of the animation `name` to `value`.
pub open spec fn switch_code(name: Seq<char>, value: u8) -> Seq<InstrV> {
    seq![
        InstrV::Ld { dst: OperandV::Reg(Register::A), src: OperandV::Imm(value) },
        InstrV::Ld { dst: OperandV::AddrDef(active_flag(name)), src: OperandV::Reg(Register::A) },
    ]
}

/// Flips the switch of the animation `name`.
pub open spec fn toggle_code(name: Seq<char>) -> Seq<InstrV> {
    seq![
        InstrV::Ld { dst: OperandV::Reg(Register::A), src: OperandV::AddrDef(active_flag(name)) },
        InstrV::Xor { dst: OperandV::Reg(Register::A), src: OperandV::Imm(1) },
        InstrV::Ld { dst: OperandV::AddrDef(active_flag(name)), src: OperandV::Reg(Register::A) },
    ]
}

/// Clears object memory and points `hl` at its start.
pub open spec fn clear_oam_code() -> Seq<InstrV> {
    seq![
        InstrV::Ld { dst: OperandV::Reg(Register::A), src: OperandV::Imm(0) },
        InstrV::Ld { dst: OperandV::Reg(Register::B), src: OperandV::Imm(160) },
        InstrV::Ld { dst: OperandV::Reg(Register::HL), src: OperandV::Label("_OAMRAM"@) },
        InstrV::Label { name: "ClearOam"@ },
        InstrV::Ld { dst: OperandV::AddrRegInc(Register::HL), src: OperandV::Label("a"@) },
        InstrV::Dec { operand: OperandV::Label("b"@) },
        InstrV::JpCond { condition: Condition::NZ, target: JumpTargetV::Label("ClearOam"@) },
        InstrV::Ld { dst: OperandV::Reg(Register::HL), src: OperandV::Label("_OAMRAM"@) },
    ]
}

/// The four bytes of a sprite's entry: its row plus 16, its column plus 8,
/// its tile index and its flags.
pub open spec fn entry_code(sprite: SpriteData) -> Seq<InstrV> {
    write_byte((sprite.y + 16) as u8) + write_byte((sprite.x + 8) as u8) + write_byte(
        sprite.tile_index,
    ) + write_byte(sprite.flags)
}

/// The entries of the first `k` sprites.
pub open spec fn entries_code(sprites: Seq<SpriteData>, k: int) -> Seq<InstrV>
    decreases k,
{
    if k <= 0 || k > sprites.len() {
        Seq::<InstrV>::empty()
    } else {
        entries_code(sprites, k - 1) + entry_code(sprites[k - 1])
    }
}

/// Adds the variable `var_name` to the byte at `offset` in object memory.
pub open spec fn move_var_code(var_name: Seq<char>, offset: nat) -> Seq<InstrV> {
    seq![
        InstrV::Ld { dst: OperandV::Reg(Register::A), src: OperandV::AddrDef(var_name) },
        InstrV::Ld { dst: OperandV::Reg(Register::B), src: OperandV::Reg(Register::A) },
        InstrV::Ld { dst: OperandV::Reg(Register::A), src: OperandV::AddrDef(oam_byte(offset)) },
        InstrV::Add { dst: OperandV::Reg(Register::A), src: OperandV::Reg(Register::B) },
        InstrV::Ld { dst: OperandV::AddrDef(oam_byte(offset)), src: OperandV::Reg(Register::A) },
    ]
}

/// The label that ends the limited move of the sprite in entry `oam` in a
/// direction.
pub open spec fn limit_label(oam: u8, direction: Seq<char>) -> Seq<char> {
    "Sprite"@ + decimal(oam as nat) + direction
}

/// A move that stops at a limit: the byte at `offset` in object memory is
/// changed by `distance` and stored, unless the new value equals `limit`.
pub open spec fn limit_code(
    end: Seq<char>,
    offset: nat,
    adds: bool,
    distance: u8,
    limit: u8,
) -> Seq<InstrV> {
    seq![
        InstrV::Ld { dst: OperandV::Reg(Register::A), src: OperandV::AddrDef(oam_byte(offset)) },
        step(adds, distance),
        InstrV::Cp { operand: OperandV::Imm(limit) },
        InstrV::JpCond { condition: Condition::Z, target: JumpTargetV::Label(end) },
        InstrV::Ld { dst: OperandV::AddrDef(oam_byte(offset)), src: OperandV::Reg(Register::A) },
        InstrV::Label { name: end },
    ]
}

/// A number as a byte; 0 where it is not one.
pub open spec fn byte_or_zero(v: int) -> u8 {
    if 0 <= v <= 255 {
        v as u8
    } else {
        0
    }
}

/// The pivot of the sprite in entry `oam`: its row without `16 + y_offset`
/// in `c`, its column without `8 + x_offset` in `b`.
pub open spec fn pivot_code(oam: u8, x_offset: i16, y_offset: i16) -> Seq<InstrV> {
    seq![
        InstrV::Ld {
            dst: OperandV::Reg(Register::A),
            src: OperandV::AddrDef(oam_byte((oam * 4) as nat)),
        },
        InstrV::Sub {
            dst: OperandV::Reg(Register::A),
            src: OperandV::Imm(byte_or_zero(16 + y_offset)),
        },
        InstrV::Ld { dst: OperandV::Reg(Register::C), src: OperandV::Reg(Register::A) },
        InstrV::Ld {
            dst: OperandV::Reg(Register::A),
            src: OperandV::AddrDef(oam_byte((oam * 4 + 1) as nat)),
        },
        InstrV::Sub {
            dst: OperandV::Reg(Register::A),
            src: OperandV::Imm(byte_or_zero(8 + x_offset)),
        },
        InstrV::Ld { dst: OperandV::Reg(Register::B), src: OperandV::Reg(Register::A) },
    ]
}

/// The animations of the first `k` sprites, sprite by sprite.
pub open spec fn all_animations(sprites: Seq<SpriteData>, k: int) -> Seq<Animation>
    decreases k,
{
    if k <= 0 || k > sprites.len() {
        Seq::<Animation>::empty()
    } else {
        all_animations(sprites, k - 1) + sprites[k - 1].animations@
    }
}

/// The routine of an animation: its label, its body and a return.
pub open spec fn routine_code(animation: Animation) -> Seq<InstrV> {
    (seq![(InstrV::Label { name: routine_name(animation.name@) })] + animation.code()).push(
        InstrV::Ret,
    )
}

/// The call of an animation's routine, which is skipped while the
/// animation is switched off.
pub open spec fn guarded_call(name: Seq<char>) -> Seq<InstrV> {
    seq![
        InstrV::Ld { dst: OperandV::Reg(Register::A), src: OperandV::AddrDef(active_flag(name)) },
        InstrV::Cp { operand: OperandV::Imm(0) },
        InstrV::JrCond { condition: Condition::Z, target: JumpTargetV::Label(".skip_"@ + name) },
        InstrV::Call { target: JumpTargetV::Label(routine_name(name)) },
        InstrV::Label { name: ".skip_"@ + name },
    ]
}

/// The guarded calls of the first `k` animations.
pub open spec fn guarded_calls(animations: Seq<Animation>, k: int) -> Seq<InstrV>
    decreases k,
{
    if k <= 0 || k > animations.len() {
        Seq::<InstrV>::empty()
    } else {
        guarded_calls(animations, k - 1) + guarded_call(animations[k - 1].name@)
    }
}

/// Counts the frames and lets the animations run on every `delay`-th: the
/// counter is incremented and, once it has reached `delay`, set back to 0.
pub open spec fn frame_counter_code(delay: u8) -> Seq<InstrV> {
    seq![
        InstrV::Ld { dst: OperandV::Reg(Register::A), src: OperandV::AddrDef("wFrameCounter"@) },
        InstrV::Inc { operand: OperandV::Reg(Register::A) },
        InstrV::Ld { dst: OperandV::AddrDef("wFrameCounter"@), src: OperandV::Reg(Register::A) },
        InstrV::Cp { operand: OperandV::Imm(delay) },
        InstrV::JrCond { condition: Condition::C, target: JumpTargetV::Label("AnimEnd"@) },
        InstrV::Ld { dst: OperandV::Reg(Register::A), src: OperandV::Imm(0) },
        InstrV::Ld { dst: OperandV::AddrDef("wFrameCounter"@), src: OperandV::Reg(Register::A) },
    ]
}

/// The name of the variable that switches the animation `name`.
pub fn active_flag_name(name: &str) -> (r: String)
    ensures
        r@ == active_flag(name@),
{
    join3("wAnim_", name, "_Active")
}

/// The instructions of a move that stops at a limit.
fn make_limit(oam: u8, direction: &str, offset: u8, adds: bool, distance: u8, limit: u8) -> (r:
    Vec<Instr>)
    ensures
        r.deep_view() == limit_code(
            limit_label(oam, direction@),
            offset as nat,
            adds,
            distance,
            limit,
        ),
{
    let digits = decimal_string(oam as u64);
    let end = join3("Sprite", digits.as_str(), direction);
    let byte = oam_byte_name(offset);
    let mut a = Asm::new();
    a.ld_a_addr_def(byte.as_str());
    if adds {
        a.add(Operand::Reg(Register::A), Operand::Imm(distance));
    } else {
        a.sub(Operand::Reg(Register::A), Operand::Imm(distance));
    }
    a.cp(Operand::Imm(limit));
    a.jp_cond(Condition::Z, end.as_str());
    a.ld_addr_def_a(byte.as_str());
    a.label(end.as_str());
    a.get_main_instrs()
}

/// The instructions that add a variable to a byte of object memory.
fn make_move_var(var_name: &str, offset: u8) -> (r: Vec<Instr>)
    ensures
        r.deep_view() == move_var_code(var_name@, offset as nat),
{
    let byte = oam_byte_name(offset);
    let mut a = Asm::new();
    a.ld_a_addr_def(var_name);
    a.ld(Operand::Reg(Register::B), Operand::Reg(Register::A));
    a.ld_a_addr_def(byte.as_str());
    a.add(Operand::Reg(Register::A), Operand::Reg(Register::B));
    a.ld_addr_def_a(byte.as_str());
    a.get_main_instrs()
}

/// A number as a byte; 0 where it is not one.
fn to_byte_or_zero(v: i16) -> (r: u8)
    ensures
        r == byte_or_zero(v as int),
{
    if 0 <= v && v <= 255 {
        v as u8
    } else {
        0
    }
}

/// No instructions.
fn nothing() -> (r: Vec<Instr>)
    ensures
        r.deep_view() == Seq::<InstrV>::empty(),
{
    let r: Vec<Instr> = Vec::new();
    r
}

impl SpriteData {
    /// Whether the sprite can be shown and animated: its position with the
    /// screen offsets added fits a byte, and so do the tile indices of its
    /// animations, which are animations of its own entry.
    pub open spec fn sound(&self) -> bool {
        &&& self.oam_index < OAM_ENTRIES
        &&& self.x <= 247
        &&& self.y <= 239
        &&& forall|j: int|
            0 <= j < self.animations@.len() ==> (#[trigger] self.animations@[j]).fits()
    }
}

impl SpriteManager {
    /// The sprites, in the order in which they were added.
    pub closed spec fn sprites(&self) -> Seq<SpriteData> {
        self.sprites@
    }

    /// The tile index that the next sprite is given.
    pub closed spec fn next_tile(&self) -> u8 {
        self.next_tile_index
    }

    /// The sprites fit object memory, the sprite with number `i` has the
    /// entry `i`, and every sprite is sound.
    pub open spec fn wf(&self) -> bool {
        &&& self.sprites().len() <= OAM_ENTRIES
        &&& forall|i: int|
            0 <= i < self.sprites().len() ==> (#[trigger] self.sprites()[i]).oam_index == i
                && self.sprites()[i].sound()
    }

    /// Whether the frames of an animation of a sprite fit: the tile indices
    /// of the frames from `start_frame` to `end_frame`, and the one after,
    /// are bytes. It holds of a sprite that does not exist.
    pub open spec fn frames_fit(
        &self,
        sprite_id: SpriteId,
        start_frame: u8,
        end_frame: u8,
    ) -> bool {
        sprite_id.0 < self.sprites().len() ==> {
            let base = self.sprites()[sprite_id.0 as int].tile_index;
            base + start_frame <= 255 && base + end_frame + 1 <= 255
        }
    }

    /// A manager without sprites.
    pub fn new() -> (r: Self)
        ensures
            r.wf(),
            r.sprites() == Seq::<SpriteData>::empty(),
            r.next_tile() == 0,
    {
        Self { sprites: Vec::new(), next_tile_index: 0 }
    }

    /// Adds a sprite that uses `tile_count` tiles. Returns `None`, and
    /// changes nothing, when object memory is full or the tile indices are
    /// used up.
    pub fn add(&mut self, name: &str, x: u8, y: u8, flags: u8, tile_count: u8) -> (r: Option<
        SpriteId,
    >)
        requires
            old(self).wf(),
            x <= 247,
            y <= 239,
        ensures
            final(self).wf(),
            r is Some <==> old(self).sprites().len() < OAM_ENTRIES && old(self).next_tile()
                + tile_count <= 255,
            r is Some ==> {
                let count = old(self).sprites().len() as int;
                let added = final(self).sprites()[count];
                &&& r.unwrap().0 == count
                &&& final(self).sprites().len() == count + 1
                &&& final(self).sprites().take(count) == old(self).sprites()
                &&& final(self).next_tile() == old(self).next_tile() + tile_count
                &&& added.name@ == name@
                &&& added.oam_index == count
                &&& added.x == x
                &&& added.y == y
                &&& added.flags == flags
                &&& added.tile_index == old(self).next_tile()
                &&& added.tile_id == TileId(usize::MAX)
                &&& added.animations@ == Seq::<Animation>::empty()
            },
            r is None ==> *final(self) == *old(self),
    {
        let count: usize = self.sprites.len();
        if count >= OAM_ENTRIES as usize || tile_count > 255 - self.next_tile_index {
            return None;
        }
        let tile_index: u8 = self.next_tile_index;
        self.next_tile_index = tile_index + tile_count;
        self.sprites.push(
            SpriteData {
                name: String::from_str(name),
                tile_id: TileId(usize::MAX),
                oam_index: count as u8,
                x,
                y,
                tile_index,
                flags,
                animations: Vec::new(),
            },
        );
        proof {
            assert forall|i: int| 0 <= i < self.sprites().len() implies (
            #[trigger] self.sprites()[i]).oam_index == i && self.sprites()[i].sound() by {
            }
        }
        Some(SpriteId(count))
    }

    /// Whether a sprite that uses `tile_count` tiles can be added.
    pub fn can_add(&self, tile_count: u8) -> (r: bool)
        ensures
            r == (self.sprites().len() < OAM_ENTRIES && self.next_tile() + tile_count <= 255),
    {
        self.sprites.len() < OAM_ENTRIES as usize && tile_count <= 255 - self.next_tile_index
    }

    /// Records the tiles of a sprite. Nothing happens when the sprite does
    /// not exist.
    pub fn set_tile_id(&mut self, sprite_id: SpriteId, tile_id: TileId)
        requires
            old(self).wf(),
        ensures
            final(self).wf(),
            final(self).next_tile() == old(self).next_tile(),
            final(self).sprites().len() == old(self).sprites().len(),
            forall|i: int|
                0 <= i < old(self).sprites().len() ==> {
                    let before = old(self).sprites()[i];
                    let after = #[trigger] final(self).sprites()[i];
                    &&& after.name == before.name
                    &&& after.oam_index == before.oam_index
                    &&& after.x == before.x
                    &&& after.y == before.y
                    &&& after.tile_index == before.tile_index
                    &&& after.flags == before.flags
                    &&& after.animations == before.animations
                    &&& after.tile_id == if i == sprite_id.0 {
                        tile_id
                    } else {
                        before.tile_id
                    }
                },
    {
        if sprite_id.0 < self.sprites.len() {
            self.sprites[sprite_id.0].tile_id = tile_id;
        }
    }

    /// What the manager keeps of a sprite.
    pub fn get(&self, id: SpriteId) -> (r: Option<&SpriteData>)
        ensures
            r is Some <==> id.0 < self.sprites().len(),
            r is Some ==> *r->0 == self.sprites()[id.0 as int],
    {
        if id.0 < self.sprites.len() {
            Some(&self.sprites[id.0])
        } else {
            None
        }
    }

    /// Adds an animation over the frames `start_frame` to `end_frame` of a
    /// sprite, one tile for each frame. Nothing happens when the sprite
    /// does not exist.
    pub fn add_animation(
        &mut self,
        sprite_id: SpriteId,
        name: &str,
        start_frame: u8,
        end_frame: u8,
        anim_type: AnimationType,
    )
        requires
            old(self).wf(),
            old(self).frames_fit(sprite_id, start_frame, end_frame),
        ensures
            final(self).wf(),
            final(self).next_tile() == old(self).next_tile(),
            final(self).sprites().len() == old(self).sprites().len(),
            forall|i: int|
                0 <= i < old(self).sprites().len() && i != sprite_id.0
                    ==> #[trigger] final(self).sprites()[i] == old(self).sprites()[i],
            sprite_id.0 < old(self).sprites().len() ==> {
                let before = old(self).sprites()[sprite_id.0 as int];
                let after = final(self).sprites()[sprite_id.0 as int];
                let added = after.animations@.last();
                &&& after.name == before.name
                &&& after.tile_id == before.tile_id
                &&& after.oam_index == before.oam_index
                &&& after.x == before.x
                &&& after.y == before.y
                &&& after.tile_index == before.tile_index
                &&& after.flags == before.flags
                &&& after.animations@.len() == before.animations@.len() + 1
                &&& after.animations@.drop_last() == before.animations@
                &&& added.name@ == name@
                &&& added.oam_index == before.oam_index
                &&& added.base_tile == before.tile_index
                &&& added.start_frame == start_frame
                &&& added.end_frame == end_frame
                &&& added.anim_type == anim_type
                &&& added.frame_step == 1
            },
    {
        if sprite_id.0 < self.sprites.len() {
            let ghost before = self.sprites()[sprite_id.0 as int];
            let animation = Animation {
                name: String::from_str(name),
                oam_index: self.sprites[sprite_id.0].oam_index,
                base_tile: self.sprites[sprite_id.0].tile_index,
                start_frame,
                end_frame,
                anim_type,
                frame_step: 1,
            };
            self.sprites[sprite_id.0].animations.push(animation);
            proof {
                let after = self.sprites()[sprite_id.0 as int];
            }
        }
    }

    /// Switches an animation on.
    pub fn enable_animation(&self, name: &str) -> (r: Vec<Instr>)
        ensures
            r.deep_view() == switch_code(name@, 1),
    {
        let flag = active_flag_name(name);
        let mut a = Asm::new();
        a.ld_a(1);
        a.ld_addr_def_a(flag.as_str());
        a.get_main_instrs()
    }

    /// Switches an animation off.
    pub fn disable_animation(&self, name: &str) -> (r: Vec<Instr>)
        ensures
            r.deep_view() == switch_code(name@, 0),
    {
        let flag = active_flag_name(name);
        let mut a = Asm::new();
        a.ld_a(0);
        a.ld_addr_def_a(flag.as_str());
        a.get_main_instrs()
    }

    /// Switches an animation on when it is off, and off when it is on.
    pub fn toggle_animation(&self, name: &str) -> (r: Vec<Instr>)
        ensures
            r.deep_view() == toggle_code(name@),
    {
        let flag = active_flag_name(name);
        let mut a = Asm::new();
        a.ld_a_addr_def(flag.as_str());
        a.xor(Operand::Reg(Register::A), Operand::Imm(1));
        a.ld_addr_def_a(flag.as_str());
        a.get_main_instrs()
    }

    /// Clears object memory and writes the entries of all sprites, in the
    /// order of their entries.
    pub fn generate_init_code(&self) -> (r: Vec<Instr>)
        requires
            self.wf(),
        ensures
            r.deep_view() == clear_oam_code() + entries_code(
                self.sprites(),
                self.sprites().len() as int,
            ),
    {
        let ghost sprites = self.sprites();
        let mut a = Asm::new();
        a.ld_a(0);
        a.ld_b(160);
        a.ld_hl_label("_OAMRAM");
        a.label("ClearOam");
        a.ld_hli_label("a");
        a.dec_label("b");
        a.jp_cond(Condition::NZ, "ClearOam");
        a.ld_hl_label("_OAMRAM");
        let n: usize = self.sprites.len();
        let mut i: usize = 0;
        while i < n
            invariant
                n == self.sprites.len(),
                i <= n,
                self.wf(),
                sprites == self.sprites(),
                a@.current == Chunk::Main,
                a@.content(Chunk::Main) == clear_oam_code() + entries_code(sprites, i as int),
            decreases n - i,
        {
            let sprite = &self.sprites[i];
            a.ld_a(sprite.y + 16);
            a.ld_hli_label("a");
            a.ld_a(sprite.x + 8);
            a.ld_hli_label("a");
            a.ld_a(sprite.tile_index);
            a.ld_hli_label("a");
            a.ld_a(sprite.flags);
            a.ld_hli_label("a");
            i = i + 1;
        }
        a.get_main_instrs()
    }

    /// Adds the variable `var_name` to the column of a sprite. No
    /// instructions when the sprite does not exist.
    pub fn move_x_var(&self, id: SpriteId, var_name: &str) -> (r: Vec<Instr>)
        requires
            self.wf(),
        ensures
            r.deep_view() == if id.0 < self.sprites().len() {
                move_var_code(var_name@, (id.0 * 4 + 1) as nat)
            } else {
                Seq::<InstrV>::empty()
            },
    {
        if id.0 < self.sprites.len() {
            make_move_var(var_name, self.sprites[id.0].oam_index * 4 + 1)
        } else {
            nothing()
        }
    }

    /// Adds the variable `var_name` to the row of a sprite. No instructions
    /// when the sprite does not exist.
    pub fn move_y_var(&self, id: SpriteId, var_name: &str) -> (r: Vec<Instr>)
        requires
            self.wf(),
        ensures
            r.deep_view() == if id.0 < self.sprites().len() {
                move_var_code(var_name@, (id.0 * 4) as nat)
            } else {
                Seq::<InstrV>::empty()
            },
    {
        if id.0 < self.sprites.len() {
            make_move_var(var_name, self.sprites[id.0].oam_index * 4)
        } else {
            nothing()
        }
    }

    /// Moves a sprite left by `distance`, unless that takes its column to
    /// `limit`. No instructions when the sprite does not exist.
    pub fn move_left_limit(&self, id: SpriteId, distance: u8, limit: u8) -> (r: Vec<Instr>)
        requires
            self.wf(),
        ensures
            r.deep_view() == if id.0 < self.sprites().len() {
                limit_code(
                    limit_label(id.0 as u8, "LeftLimitEnd"@),
                    (id.0 * 4 + 1) as nat,
                    false,
                    distance,
                    limit,
                )
            } else {
                Seq::<InstrV>::empty()
            },
    {
        if id.0 < self.sprites.len() {
            let oam: u8 = self.sprites[id.0].oam_index;
            make_limit(oam, "LeftLimitEnd", oam * 4 + 1, false, distance, limit)
        } else {
            nothing()
        }
    }

    /// Moves a sprite right by `distance`, unless that takes its column to
    /// `limit`. No instructions when the sprite does not exist.
    pub fn move_right_limit(&self, id: SpriteId, distance: u8, limit: u8) -> (r: Vec<Instr>)
        requires
            self.wf(),
        ensures
            r.deep_view() == if id.0 < self.sprites().len() {
                limit_code(
                    limit_label(id.0 as u8, "RightLimitEnd"@),
                    (id.0 * 4 + 1) as nat,
                    true,
                    distance,
                    limit,
                )
            } else {
                Seq::<InstrV>::empty()
            },
    {
        if id.0 < self.sprites.len() {
            let oam: u8 = self.sprites[id.0].oam_index;
            make_limit(oam, "RightLimitEnd", oam * 4 + 1, true, distance, limit)
        } else {
            nothing()
        }
    }

    /// Moves a sprite up by `distance`, unless that takes its row to
    /// `limit`. No instructions when the sprite does not exist.
    pub fn move_up_limit(&self, id: SpriteId, distance: u8, limit: u8) -> (r: Vec<Instr>)
        requires
            self.wf(),
        ensures
            r.deep_view() == if id.0 < self.sprites().len() {
                limit_code(
                    limit_label(id.0 as u8, "UpLimitEnd"@),
                    (id.0 * 4) as nat,
                    false,
                    distance,
                    limit,
                )
            } else {
                Seq::<InstrV>::empty()
            },
    {
        if id.0 < self.sprites.len() {
            let oam: u8 = self.sprites[id.0].oam_index;
            make_limit(oam, "UpLimitEnd", oam * 4, false, distance, limit)
        } else {
            nothing()
        }
    }

    /// Moves a sprite down by `distance`, unless that takes its row to
    /// `limit`. No instructions when the sprite does not exist.
    pub fn move_down_limit(&self, id: SpriteId, distance: u8, limit: u8) -> (r: Vec<Instr>)
        requires
            self.wf(),
        ensures
            r.deep_view() == if id.0 < self.sprites().len() {
                limit_code(
                    limit_label(id.0 as u8, "DownLimitEnd"@),
                    (id.0 * 4) as nat,
                    true,
                    distance,
                    limit,
                )
            } else {
                Seq::<InstrV>::empty()
            },
    {
        if id.0 < self.sprites.len() {
            let oam: u8 = self.sprites[id.0].oam_index;
            make_limit(oam, "DownLimitEnd", oam * 4, true, distance, limit)
        } else {
            nothing()
        }
    }

    /// Loads the pivot of a sprite into `b` (column) and `c` (row), moved
    /// by the given offsets; an offset that takes the screen offset out of
    /// the range of a byte counts as the screen offset 0. No instructions
    /// when the sprite does not exist.
    pub fn get_pivot(&self, id: SpriteId, x_offset: i16, y_offset: i16) -> (r: Vec<Instr>)
        requires
            self.wf(),
            x_offset <= i16::MAX - 8,
            y_offset <= i16::MAX - 16,
        ensures
            r.deep_view() == if id.0 < self.sprites().len() {
                pivot_code(id.0 as u8, x_offset, y_offset)
            } else {
                Seq::<InstrV>::empty()
            },
    {
        if id.0 < self.sprites.len() {
            let oam: u8 = self.sprites[id.0].oam_index;
            let row = oam_byte_name(oam * 4);
            let column = oam_byte_name(oam * 4 + 1);
            let mut a = Asm::new();
            a.ld_a_addr_def(row.as_str());
            a.sub(Operand::Reg(Register::A), Operand::Imm(to_byte_or_zero(16i16 + y_offset)));
            a.ld(Operand::Reg(Register::C), Operand::Reg(Register::A));
            a.ld_a_addr_def(column.as_str());
            a.sub(Operand::Reg(Register::A), Operand::Imm(to_byte_or_zero(8i16 + x_offset)));
            a.ld(Operand::Reg(Register::B), Operand::Reg(Register::A));
            a.get_main_instrs()
        } else {
            nothing()
        }
    }

    /// Loads the row of a sprite into the accumulator. No instructions when
    /// the sprite does not exist.
    pub fn get_y(&self, id: SpriteId) -> (r: Vec<Instr>)
        requires
            self.wf(),
        ensures
            r.deep_view() == if id.0 < self.sprites().len() {
                seq![
                    (InstrV::Ld {
                        dst: OperandV::Reg(Register::A),
                        src: OperandV::AddrDef(oam_byte((id.0 * 4) as nat)),
                    }),
                ]
            } else {
                Seq::<InstrV>::empty()
            },
    {
        if id.0 < self.sprites.len() {
            let byte = oam_byte_name(self.sprites[id.0].oam_index * 4);
            let mut a = Asm::new();
            a.ld_a_addr_def(byte.as_str());
            a.get_main_instrs()
        } else {
            nothing()
        }
    }

    /// Loads the column of a sprite into the accumulator. No instructions
    /// when the sprite does not exist.
    pub fn get_x(&self, id: SpriteId) -> (r: Vec<Instr>)
        requires
            self.wf(),
        ensures
            r.deep_view() == if id.0 < self.sprites().len() {
                seq![
                    (InstrV::Ld {
                        dst: OperandV::Reg(Register::A),
                        src: OperandV::AddrDef(oam_byte((id.0 * 4 + 1) as nat)),
                    }),
                ]
            } else {
                Seq::<InstrV>::empty()
            },
    {
        if id.0 < self.sprites.len() {
            let byte = oam_byte_name(self.sprites[id.0].oam_index * 4 + 1);
            let mut a = Asm::new();
            a.ld_a_addr_def(byte.as_str());
            a.get_main_instrs()
        } else {
            nothing()
        }
    }

    /// Whether no sprite was added.
    pub fn is_empty(&self) -> (r: bool)
        ensures
            r == (self.sprites().len() == 0),
    {
        self.sprites.is_empty()
    }

    /// The animations of all sprites, sprite by sprite.
    fn animations(&self) -> (r: Vec<&Animation>)
        requires
            self.wf(),
        ensures
            r@.len() == all_animations(self.sprites(), self.sprites().len() as int).len(),
            forall|k: int|
                0 <= k < r@.len() ==> *(#[trigger] r@[k]) == all_animations(
                    self.sprites(),
                    self.sprites().len() as int,
                )[k] && r@[k].fits(),
    {
        let ghost sprites = self.sprites();
        let mut out: Vec<&Animation> = Vec::new();
        let n: usize = self.sprites.len();
        let mut i: usize = 0;
        while i < n
            invariant
                n == self.sprites.len(),
                i <= n,
                self.wf(),
                sprites == self.sprites(),
                out@.len() == all_animations(sprites, i as int).len(),
                forall|k: int|
                    0 <= k < out@.len() ==> *(#[trigger] out@[k]) == all_animations(
                        sprites,
                        i as int,
                    )[k] && out@[k].fits(),
            decreases n - i,
        {
            let ghost done = all_animations(sprites, i as int);
            let ghost own = sprites[i as int].animations@;
            let m: usize = self.sprites[i].animations.len();
            let mut j: usize = 0;
            while j < m
                invariant
                    i < n,
                    n == self.sprites.len(),
                    m == self.sprites[i as int].animations.len(),
                    j <= m,
                    sprites == self.sprites(),
                    own == sprites[i as int].animations@,
                    sprites[i as int].sound(),
                    out@.len() == done.len() + j,
                    forall|k: int|
                        0 <= k < out@.len() ==> *(#[trigger] out@[k]) == (done + own.take(
                            j as int,
                        ))[k] && out@[k].fits(),
                decreases m - j,
            {
                out.push(&self.sprites[i].animations[j]);
                j = j + 1;
            }
            i = i + 1;
        }
        out
    }

    /// Whether any sprite has an animation.
    pub fn has_animations(&self) -> (r: bool)
        requires
            self.wf(),
        ensures
            r == (all_animations(self.sprites(), self.sprites().len() as int).len() > 0),
    {
        let all = self.animations();
        all.len() > 0
    }

    /// The routines of all animations, each with its name.
    pub fn generate_animation_functions(&self) -> (r: Vec<(String, Vec<Instr>)>)
        requires
            self.wf(),
        ensures
            r@.len() == all_animations(self.sprites(), self.sprites().len() as int).len(),
            forall|k: int|
                0 <= k < r@.len() ==> {
                    let animation = all_animations(self.sprites(), self.sprites().len() as int)[k];
                    (#[trigger] r@[k]).0@ == routine_name(animation.name@)
                        && r@[k].1.deep_view() == routine_code(animation)
                },
    {
        let ghost want = all_animations(self.sprites(), self.sprites().len() as int);
        let all = self.animations();
        let mut functions: Vec<(String, Vec<Instr>)> = Vec::new();
        let n: usize = all.len();
        let mut i: usize = 0;
        while i < n
            invariant
                n == all@.len(),
                n == want.len(),
                i <= n,
                forall|k: int| 0 <= k < n ==> *(#[trigger] all@[k]) == want[k] && all@[k].fits(),
                functions@.len() == i,
                forall|k: int|
                    0 <= k < i ==> (#[trigger] functions@[k]).0@ == routine_name(want[k].name@)
                        && functions@[k].1.deep_view() == routine_code(want[k]),
            decreases n - i,
        {
            let animation = all[i];
            let func_name = join2("Anim_", animation.name.as_str());
            let mut a = Asm::new();
            a.label(func_name.as_str());
            a.emit_all(animation.generate_loop_func());
            a.ret();
            let body = a.get_main_instrs();
            functions.push((func_name, body));
            i = i + 1;
        }
        functions
    }

    /// The code that runs the animations in the main loop: the frame
    /// counter, a guarded call for every animation, and the label that the
    /// counter jumps to on the frames between.
    pub fn generate_animation_calls(&self, delay_value: u8) -> (r: Vec<Instr>)
        requires
            self.wf(),
        ensures
            r.deep_view() == (frame_counter_code(delay_value) + guarded_calls(
                all_animations(self.sprites(), self.sprites().len() as int),
                all_animations(self.sprites(), self.sprites().len() as int).len() as int,
            )).push(InstrV::Label { name: "AnimEnd"@ }),
    {
        let ghost want = all_animations(self.sprites(), self.sprites().len() as int);
        let ghost head = frame_counter_code(delay_value);
        let all = self.animations();
        let mut a = Asm::new();
        a.ld_a_addr_def("wFrameCounter");
        a.inc(Operand::Reg(Register::A));
        a.ld_addr_def_a("wFrameCounter");
        a.cp_imm(delay_value);
        a.jr_cond(Condition::C, "AnimEnd");
        a.ld_a(0);
        a.ld_addr_def_a("wFrameCounter");
        let n: usize = all.len();
        let mut i: usize = 0;
        while i < n
            invariant
                n == all@.len(),
                n == want.len(),
                i <= n,
                forall|k: int| 0 <= k < n ==> *(#[trigger] all@[k]) == want[k],
                a@.current == Chunk::Main,
                a@.content(Chunk::Main) == head + guarded_calls(want, i as int),
            decreases n - i,
        {
            let name = all[i].name.as_str();
            let func_name = join2("Anim_", name);
            let enabled_var = active_flag_name(name);
            let skip_label = join2(".skip_", name);
            a.ld_a_addr_def(enabled_var.as_str());
            a.cp_imm(0);
            a.jr_cond(Condition::Z, skip_label.as_str());
            a.call(func_name.as_str());
            a.label(skip_label.as_str());
            i = i + 1;
        }
        a.label("AnimEnd");
        a.get_main_instrs()
    }

    /// The variables that switch the animations, each with its initial
    /// value 1: an animation starts switched on.
    pub fn get_animation_variables(&self) -> (r: Vec<(String, u8)>)
        requires
            self.wf(),
        ensures
            r@.len() == all_animations(self.sprites(), self.sprites().len() as int).len(),
            forall|k: int|
                0 <= k < r@.len() ==> (#[trigger] r@[k]).0@ == active_flag(
                    all_animations(self.sprites(), self.sprites().len() as int)[k].name@,
                ) && r@[k].1 == 1,
    {
        let ghost want = all_animations(self.sprites(), self.sprites().len() as int);
        let all = self.animations();
        let mut vars: Vec<(String, u8)> = Vec::new();
        let n: usize = all.len();
        let mut i: usize = 0;
        while i < n
            invariant
                n == all@.len(),
                n == want.len(),
                i <= n,
                forall|k: int| 0 <= k < n ==> *(#[trigger] all@[k]) == want[k],
                vars@.len() == i,
                forall|k: int|
                    0 <= k < i ==> (#[trigger] vars@[k]).0@ == active_flag(want[k].name@)
                        && vars@[k].1 == 1,
            decreases n - i,
        {
            vars.push((active_flag_name(all[i].name.as_str()), 1));
            i = i + 1;
        }
        vars
    }
}

} // verus!
