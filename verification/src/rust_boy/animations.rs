//! Sprite animations: routines that step a sprite's tile through a range
//! of frames.

use crate::gb_asm::{Asm, Condition, Instr, InstrV, JumpTargetV, Operand, OperandV, Register};
use crate::gb_std::graphics::sprites::{oam_byte, oam_byte_name};
use crate::text::join2;
use vstd::prelude::*;

verus! {

/// How an animation goes on after its last frame.
#[derive(Debug, Clone, Copy, PartialEq, Eq, Structural)]
pub enum AnimationType {
    Loop,
    PingPong,
    Once,
}

/// An animation of one sprite.
#[derive(Debug)]
pub struct Animation {
    pub name: String,
    /// The sprite's entry in object memory.
    pub oam_index: u8,
    /// The index of the sprite's first tile.
    pub base_tile: u8,
    /// The first frame, counted from the sprite's first tile.
    pub start_frame: u8,
    /// The last frame, counted from the sprite's first tile.
    pub end_frame: u8,
    pub anim_type: AnimationType,
    /// The number of tiles from one frame to the next.
    pub frame_step: u8,
}

/// The step from one frame to the next: an increment when it is one tile,
/// an addition when it is more.
pub open spec fn advance(frame_step: u8) -> InstrV {
    if frame_step == 1 {
        InstrV::Inc { operand: OperandV::Label("a"@) }
    } else {
        InstrV::Add { dst: OperandV::Reg(Register::A), src: OperandV::Imm(frame_step) }
    }
}

/// The body of the routine that steps the animation `name`: the tile index
/// in the byte `tile_byte` of object memory moves on by `frame_step` and
/// goes back to `first` when it leaves the range from `first` up to, and
/// excluding, `limit`.
pub open spec fn loop_code(
    name: Seq<char>,
    tile_byte: Seq<char>,
    frame_step: u8,
    first: u8,
    limit: u8,
) -> Seq<InstrV> {
    seq![
        InstrV::Ld { dst: OperandV::Reg(Register::A), src: OperandV::AddrDef(tile_byte) },
        advance(frame_step),
        InstrV::Cp { operand: OperandV::Imm(first) },
        InstrV::JrCond { condition: Condition::C, target: JumpTargetV::Label(".reset_"@ + name) },
        InstrV::Cp { operand: OperandV::Imm(limit) },
        InstrV::JrCond { condition: Condition::C, target: JumpTargetV::Label(".store_"@ + name) },
        InstrV::Label { name: ".reset_"@ + name },
        InstrV::Ld { dst: OperandV::Reg(Register::A), src: OperandV::Imm(first) },
        InstrV::Label { name: ".store_"@ + name },
        InstrV::Ld { dst: OperandV::AddrDef(tile_byte), src: OperandV::Reg(Register::A) },
    ]
}

impl Animation {
    /// The tile index of the first frame.
    pub open spec fn first_tile(&self) -> int {
        self.base_tile + self.start_frame * self.frame_step
    }

    /// The tile index after the last frame.
    pub open spec fn limit_tile(&self) -> int {
        self.base_tile + self.end_frame * self.frame_step + self.frame_step
    }

    /// Whether the sprite's entry lies in object memory and the tile
    /// indices of all frames, and the one after the last, fit a byte.
    pub open spec fn fits(&self) -> bool {
        &&& self.oam_index < 40
        &&& self.first_tile() <= 255
        &&& self.limit_tile() <= 255
    }

    /// The body of the routine that steps this animation.
    pub open spec fn code(&self) -> Seq<InstrV> {
        loop_code(
            self.name@,
            oam_byte((self.oam_index * 4 + 2) as nat),
            self.frame_step,
            self.first_tile() as u8,
            self.limit_tile() as u8,
        )
    }

    /// Whether the animation fits; see [`Animation::fits`].
    pub fn check_fits(&self) -> (r: bool)
        ensures
            r == self.fits(),
    {
        let step: u32 = self.frame_step as u32;
        let start: u32 = self.start_frame as u32;
        let end: u32 = self.end_frame as u32;
        assert(start * step <= 255 * 255) by (nonlinear_arith)
            requires
                start <= 255,
                step <= 255,
        ;
        assert(end * step <= 255 * 255) by (nonlinear_arith)
            requires
                end <= 255,
                step <= 255,
        ;
        self.oam_index < 40 && self.base_tile as u32 + start * step <= 255 && self.base_tile as u32
            + end * step + step <= 255
    }

    /// The body of the routine that steps this animation.
    pub fn generate_loop_func(&self) -> (r: Vec<Instr>)
        requires
            self.fits(),
        ensures
            r.deep_view() == self.code(),
    {
        assert(self.start_frame * self.frame_step <= 255 && self.end_frame * self.frame_step
            <= 255) by (nonlinear_arith)
            requires
                self.base_tile + self.start_frame * self.frame_step <= 255,
                self.base_tile + self.end_frame * self.frame_step + self.frame_step <= 255,
                self.base_tile >= 0,
                self.frame_step >= 0,
        ;
        let store = join2(".store_", self.name.as_str());
        let reset = join2(".reset_", self.name.as_str());
        let tile_byte = oam_byte_name(self.oam_index * 4 + 2);
        let abs_start: u8 = self.base_tile + (self.start_frame * self.frame_step);
        let abs_end: u8 = self.base_tile + (self.end_frame * self.frame_step);
        let mut a = Asm::new();
        a.ld_a_addr_def(tile_byte.as_str());
        if self.frame_step == 1 {
            a.inc_label("a");
        } else {
            a.add(Operand::Reg(Register::A), Operand::Imm(self.frame_step));
        }
        a.cp_imm(abs_start);
        a.jr_cond(Condition::C, reset.as_str());
        a.cp_imm(abs_end + self.frame_step);
        a.jr_cond(Condition::C, store.as_str());
        a.label(reset.as_str());
        a.ld_a(abs_start);
        a.label(store.as_str());
        a.ld_addr_def_a(tile_byte.as_str());
        a.get_main_instrs()
    }
}

} // verus!
