//! A position in the tile map and the instructions that work on it.
//!
//! The tile map is a grid of 32 by 32 bytes, each the index of a tile. The
//! instructions address it through `hl`.

use crate::gb_asm::{Asm, Instr, InstrV, Operand, OperandV, Register};
use vstd::prelude::*;
use vstd::string::StringExecFns;

verus! {

/// A position in the tile map.
pub struct TileRef {
    /// The address of the position in video memory.
    pub tilemap_addr: u16,
}

/// Loads `hl` with an address.
pub open spec fn load_hl(addr: u16) -> InstrV {
    InstrV::Ld { dst: OperandV::Reg(Register::HL), src: OperandV::Imm16(addr) }
}

/// Loads the accumulator with a byte.
pub open spec fn load_a(value: u8) -> InstrV {
    InstrV::Ld { dst: OperandV::Reg(Register::A), src: OperandV::Imm(value) }
}

/// Stores the accumulator at the address in `hl`.
pub open spec fn store_at_hl() -> InstrV {
    InstrV::Ld { dst: OperandV::AddrReg(Register::HL), src: OperandV::Reg(Register::A) }
}

/// Adds `de` to `hl`.
pub open spec fn add_hl_de() -> InstrV {
    InstrV::Add { dst: OperandV::Reg(Register::HL), src: OperandV::Reg(Register::DE) }
}

impl TileRef {
    /// The position at an address.
    pub fn new(tilemap_addr: u16) -> (r: Self)
        ensures
            r.tilemap_addr == tilemap_addr,
    {
        TileRef { tilemap_addr }
    }

    /// The position in column `x` of row `y` of the tile map at
    /// `tilemap_base`.
    pub fn from_coords(x: u8, y: u8, tilemap_base: u16) -> (r: Self)
        requires
            tilemap_base + y * 32 + x <= u16::MAX,
        ensures
            r.tilemap_addr == tilemap_base + y * 32 + x,
    {
        let offset: u16 = (y as u16 * 32) + x as u16;
        TileRef { tilemap_addr: tilemap_base + offset }
    }

    /// The position in column `x` of row `y` of the tile map at `$9800`.
    pub fn from_xy(x: u8, y: u8) -> (r: Self)
        ensures
            r.tilemap_addr == 0x9800 + y * 32 + x,
    {
        Self::from_coords(x, y, 0x9800)
    }

    /// Loads the position's address into `hl`.
    pub fn load_address(&self) -> (r: Vec<Instr>)
        ensures
            r.deep_view() == seq![load_hl(self.tilemap_addr)],
    {
        let mut a = Asm::new();
        a.ld_hl(self.tilemap_addr);
        a.get_main_instrs()
    }

    /// Loads a symbolic address into `hl`.
    pub fn load_address_label(label: &str) -> (r: Vec<Instr>)
        ensures
            r.deep_view() == seq![
                (InstrV::Ld { dst: OperandV::Reg(Register::HL), src: OperandV::Label(label@) }),
            ],
    {
        let mut a = Asm::new();
        a.ld_hl_label(label);
        a.get_main_instrs()
    }

    /// Writes a tile index at the address in `hl`.
    pub fn set_tile(tile_index: u8) -> (r: Vec<Instr>)
        ensures
            r.deep_view() == seq![load_a(tile_index), store_at_hl()],
    {
        let mut a = Asm::new();
        a.ld_a(tile_index).ld(Operand::AddrReg(Register::HL), Operand::Reg(Register::A));
        a.get_main_instrs()
    }

    /// Writes a named tile index at the address in `hl`.
    pub fn set_tile_label(const_name: &str) -> (r: Vec<Instr>)
        ensures
            r.deep_view() == seq![
                (InstrV::Ld {
                    dst: OperandV::AddrReg(Register::HL),
                    src: OperandV::Label(const_name@),
                }),
            ],
    {
        let mut a = Asm::new();
        a.ld(Operand::AddrReg(Register::HL), Operand::Label(String::from_str(const_name)));
        a.get_main_instrs()
    }

    /// Writes a tile index at this position.
    pub fn set_tile_at(&self, tile_index: u8) -> (r: Vec<Instr>)
        ensures
            r.deep_view() == seq![load_hl(self.tilemap_addr), load_a(tile_index), store_at_hl()],
    {
        let mut a = Asm::new();
        a.ld_hl(self.tilemap_addr).ld_a(tile_index).ld(
            Operand::AddrReg(Register::HL),
            Operand::Reg(Register::A),
        );
        a.get_main_instrs()
    }

    /// Moves `hl` to the next position of the row.
    pub fn next_tile() -> (r: Vec<Instr>)
        ensures
            r.deep_view() == seq![(InstrV::Inc { operand: OperandV::Reg(Register::HL) })],
    {
        let mut a = Asm::new();
        a.inc(Operand::Reg(Register::HL));
        a.get_main_instrs()
    }

    /// Moves `hl` to the previous position of the row.
    pub fn prev_tile() -> (r: Vec<Instr>)
        ensures
            r.deep_view() == seq![(InstrV::Dec { operand: OperandV::Reg(Register::HL) })],
    {
        let mut a = Asm::new();
        a.dec(Operand::Reg(Register::HL));
        a.get_main_instrs()
    }

    /// Reads the tile index at the address in `hl` into the accumulator.
    pub fn get_tile() -> (r: Vec<Instr>)
        ensures
            r.deep_view() == seq![
                (InstrV::Ld {
                    dst: OperandV::Reg(Register::A),
                    src: OperandV::AddrReg(Register::HL),
                }),
            ],
    {
        let mut a = Asm::new();
        a.ld_a_addr_reg(Register::HL);
        a.get_main_instrs()
    }

    /// Writes a tile index at the address in `hl` and moves `hl` on.
    pub fn set_tile_and_next(tile_index: u8) -> (r: Vec<Instr>)
        ensures
            r.deep_view() == seq![
                load_a(tile_index),
                (InstrV::Ld {
                    dst: OperandV::AddrRegInc(Register::HL),
                    src: OperandV::Reg(Register::A),
                }),
            ],
    {
        let mut a = Asm::new();
        a.ld_a(tile_index).ld(Operand::AddrRegInc(Register::HL), Operand::Reg(Register::A));
        a.get_main_instrs()
    }

    /// Moves `hl` down one row: the map is 32 positions wide.
    pub fn next_row() -> (r: Vec<Instr>)
        ensures
            r.deep_view() == seq![
                (InstrV::Ld { dst: OperandV::Reg(Register::DE), src: OperandV::Imm16(32) }),
                add_hl_de(),
            ],
    {
        let mut a = Asm::new();
        a.ld_de(32).add(Operand::Reg(Register::HL), Operand::Reg(Register::DE));
        a.get_main_instrs()
    }

    /// Moves `hl` up one row, by adding -32 as a 16-bit two's complement.
    pub fn prev_row() -> (r: Vec<Instr>)
        ensures
            r.deep_view() == seq![
                (InstrV::Ld { dst: OperandV::Reg(Register::DE), src: OperandV::Imm16(0xFFE0) }),
                add_hl_de(),
            ],
    {
        let mut a = Asm::new();
        a.ld_de(0xFFE0).add(Operand::Reg(Register::HL), Operand::Reg(Register::DE));
        a.get_main_instrs()
    }
}

} // verus!
