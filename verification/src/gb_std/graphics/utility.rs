//! Tile data, tile maps and the routines that copy them to video memory.

use crate::gb_asm::{Asm, Chunk, Condition, Instr, InstrV, JumpTargetV, Operand, OperandV, Register};
use crate::text::{dollar_hex2, dollar_hex2_string, join2, join3};
use vstd::prelude::*;
use vstd::string::StringExecFns;

verus! {

/// The `dw` lines of the first `k` lines of a tile.
pub open spec fn tile_lines(tile: [&str; 8], k: int) -> Seq<InstrV>
    decreases k,
{
    if k <= 0 || k > 8 {
        Seq::<InstrV>::empty()
    } else {
        tile_lines(tile, k - 1).push(InstrV::Dw { value: tile@[k - 1]@ })
    }
}

/// The `dw` lines of the first `k` tiles, eight lines for each tile.
pub open spec fn tiles_lines(tiles: Seq<[&str; 8]>, k: int) -> Seq<InstrV>
    decreases k,
{
    if k <= 0 || k > tiles.len() {
        Seq::<InstrV>::empty()
    } else {
        tiles_lines(tiles, k - 1) + tile_lines(tiles[k - 1], 8)
    }
}

/// Data between the label `label` and the label `label` followed by `End`,
/// from which the assembler computes the data's size.
pub open spec fn labelled(label: Seq<char>, body: Seq<InstrV>) -> Seq<InstrV> {
    (seq![(InstrV::Label { name: label })] + body).push(InstrV::Label { name: label + "End"@ })
}

/// The bytes of the first `k` entries of a row, as `$` and two hexadecimal
/// digits each, with a comma and a space between them.
pub open spec fn row_text(row: Seq<u8>, k: int) -> Seq<char>
    decreases k,
{
    if k <= 0 || k > row.len() {
        Seq::<char>::empty()
    } else if k == 1 {
        dollar_hex2(row[0] as nat)
    } else {
        row_text(row, k - 1) + ", "@ + dollar_hex2(row[k - 1] as nat)
    }
}

/// The `db` lines of the first `k` rows of a tile map.
pub open spec fn tilemap_lines(rows: Seq<[u8; 32]>, k: int) -> Seq<InstrV>
    decreases k,
{
    if k <= 0 || k > rows.len() {
        Seq::<InstrV>::empty()
    } else {
        tilemap_lines(rows, k - 1).push(InstrV::Db { values: row_text(rows[k - 1]@, 32) })
    }
}

/// Ten tiles as word data between `label` and its end label.
pub fn add_tiles(label: &str, tiles: [[&str; 8]; 10]) -> (r: Vec<Instr>)
    ensures
        r.deep_view() == labelled(label@, tiles_lines(tiles@, 10)),
{
    let ghost head = seq![(InstrV::Label { name: label@ })];
    let mut a = Asm::new();
    a.label(label);
    let mut i: usize = 0;
    while i < 10
        invariant
            i <= 10,
            a@.current == Chunk::Main,
            a@.content(Chunk::Main) == head + tiles_lines(tiles@, i as int),
        decreases 10 - i,
    {
        let ghost done = head + tiles_lines(tiles@, i as int);
        let mut j: usize = 0;
        while j < 8
            invariant
                i < 10,
                j <= 8,
                a@.current == Chunk::Main,
                a@.content(Chunk::Main) == done + tile_lines(tiles@[i as int], j as int),
            decreases 8 - j,
        {
            a.dw(tiles[i][j]);
            j = j + 1;
        }
        i = i + 1;
    }
    let end = join2(label, "End");
    a.label(end.as_str());
    a.get_main_instrs()
}

/// A binary file of tile graphics between `label` and its end label.
pub fn add_tiles_2bpp(label: &str, path: &str) -> (r: Vec<Instr>)
    ensures
        r.deep_view() == labelled(
            label@,
            seq![(InstrV::Incbin { file: path@, offset: None, length: None })],
        ),
{
    let end = join2(label, "End");
    let mut a = Asm::new();
    a.label(label);
    a.incbin(path);
    a.label(end.as_str());
    a.get_main_instrs()
}

/// A binary file of tile-map data between `label` and its end label.
pub fn add_tiles_tilemap(label: &str, path: &str) -> (r: Vec<Instr>)
    ensures
        r.deep_view() == labelled(
            label@,
            seq![(InstrV::Incbin { file: path@, offset: None, length: None })],
        ),
{
    add_tiles_2bpp(label, path)
}

/// The bytes of a row as text.
pub fn row_string(row: &[u8; 32]) -> (r: String)
    ensures
        r@ == row_text(row@, 32),
{
    let mut r = dollar_hex2_string(row[0]);
    let mut k: usize = 1;
    while k < 32
        invariant
            1 <= k <= 32,
            r@ == row_text(row@, k as int),
        decreases 32 - k,
    {
        let byte = dollar_hex2_string(row[k]);
        r.append(", ");
        r.append(byte.as_str());
        k = k + 1;
    }
    r
}

/// A tile map as byte data between `label` and its end label, one `db` line
/// for each row.
pub fn add_tilemap(label: &str, tilemap: &[[u8; 32]]) -> (r: Vec<Instr>)
    ensures
        r.deep_view() == labelled(label@, tilemap_lines(tilemap@, tilemap@.len() as int)),
{
    let ghost head = seq![(InstrV::Label { name: label@ })];
    let mut a = Asm::new();
    a.label(label);
    let n: usize = tilemap.len();
    let mut i: usize = 0;
    while i < n
        invariant
            n == tilemap@.len(),
            i <= n,
            a@.current == Chunk::Main,
            a@.content(Chunk::Main) == head + tilemap_lines(tilemap@, i as int),
        decreases n - i,
    {
        let values = row_string(&tilemap[i]);
        a.db(values.as_str());
        i = i + 1;
    }
    let end = join2(label, "End");
    a.label(end.as_str());
    a.get_main_instrs()
}

/// The call that copies the data under `label` to `addr`: the source in
/// `de`, the destination in `hl`, the size in `bc`.
pub open spec fn cp_in_memory_code(label: Seq<char>, addr: Seq<char>) -> Seq<InstrV> {
    seq![
        InstrV::Ld { dst: OperandV::Reg(Register::DE), src: OperandV::Label(label) },
        InstrV::Ld { dst: OperandV::Reg(Register::HL), src: OperandV::Label(addr) },
        InstrV::Ld {
            dst: OperandV::Reg(Register::BC),
            src: OperandV::Label(label + "End - "@ + label),
        },
        InstrV::Call { target: JumpTargetV::Label("Memcopy"@) },
    ]
}

/// Copies the data under `label` to the address `addr` with `Memcopy`.
pub fn cp_in_memory(label: &str, addr: &str) -> (r: Vec<Instr>)
    ensures
        r.deep_view() == cp_in_memory_code(label@, addr@),
{
    let size = join3(label, "End - ", label);
    let mut a = Asm::new();
    a.ld_de_label(label).ld_hl_label(addr).ld_bc_label(size.as_str()).call("Memcopy");
    a.get_main_instrs()
}

/// The copy routine.
pub open spec fn memcopy_code() -> Seq<InstrV> {
    seq![
        InstrV::Comment { text: "Copy bytes from one area to another"@ },
        InstrV::Comment { text: "@param de: source"@ },
        InstrV::Comment { text: "@param hl: destination"@ },
        InstrV::Comment { text: "@param bc: length"@ },
        InstrV::Label { name: "Memcopy"@ },
        InstrV::Ld { dst: OperandV::Reg(Register::A), src: OperandV::AddrReg(Register::DE) },
        InstrV::Ld { dst: OperandV::AddrRegInc(Register::HL), src: OperandV::Label("a"@) },
        InstrV::Inc { operand: OperandV::Label("de"@) },
        InstrV::Dec { operand: OperandV::Label("bc"@) },
        InstrV::Ld { dst: OperandV::Reg(Register::A), src: OperandV::Label("b"@) },
        InstrV::Or { dst: OperandV::Label("a"@), src: OperandV::Label("c"@) },
        InstrV::JpCond { condition: Condition::NZ, target: JumpTargetV::Label("Memcopy"@) },
        InstrV::Ret,
    ]
}

/// The routine `Memcopy`: it copies `bc` bytes from the address in `de` to the address in `hl`.
pub fn memcopy() -> (r: Vec<Instr>)
    ensures
        r.deep_view() == memcopy_code(),
{
    let mut a = Asm::new();
    a.comment("Copy bytes from one area to another");
    a.comment("@param de: source");
    a.comment("@param hl: destination");
    a.comment("@param bc: length");
    a.label("Memcopy");
    a.ld(Operand::Reg(Register::A), Operand::AddrReg(Register::DE));
    a.ld(Operand::AddrRegInc(Register::HL), Operand::Label(String::from_str("a")));
    a.inc(Operand::Label(String::from_str("de")));
    a.dec(Operand::Label(String::from_str("bc")));
    a.ld(Operand::Reg(Register::A), Operand::Label(String::from_str("b")));
    a.or(Operand::Label(String::from_str("a")), Operand::Label(String::from_str("c")));
    a.jp_cond(Condition::NZ, "Memcopy");
    a.ret();
    a.get_main_instrs()
}

/// The two instructions that clear the LCD control register.
pub open spec fn turn_off_screen_code() -> Seq<InstrV> {
    seq![
        InstrV::Ld { dst: OperandV::Reg(Register::A), src: OperandV::Imm(0) },
        InstrV::Ld { dst: OperandV::AddrDef("rLCDC"@), src: OperandV::Reg(Register::A) },
    ]
}

/// Turns the display off by clearing the LCD control register.
pub fn turn_off_screen() -> (r: Vec<Instr>)
    ensures
        r.deep_view() == turn_off_screen_code(),
{
    let mut a = Asm::new();
    a.ld(Operand::Reg(Register::A), Operand::Imm(0));
    a.ld(Operand::AddrDef(String::from_str("rLCDC")), Operand::Reg(Register::A));
    a.get_main_instrs()
}

/// The loop that waits for line 144 of the display.
pub open spec fn wait_vblank_code() -> Seq<InstrV> {
    seq![
        InstrV::Label { name: "WaitVBlank"@ },
        InstrV::Ld { dst: OperandV::Reg(Register::A), src: OperandV::AddrDef("rLY"@) },
        InstrV::Cp { operand: OperandV::Imm(144) },
        InstrV::JpCond { condition: Condition::C, target: JumpTargetV::Label("WaitVBlank"@) },
    ]
}

/// Waits in place until the display has reached the vertical blank.
pub fn wait_vblank() -> (r: Vec<Instr>)
    ensures
        r.deep_view() == wait_vblank_code(),
{
    let mut a = Asm::new();
    a.label("WaitVBlank");
    a.ld(Operand::Reg(Register::A), Operand::AddrDef(String::from_str("rLY")));
    a.cp(Operand::Imm(144));
    a.jp_cond(Condition::C, "WaitVBlank");
    a.get_main_instrs()
}

} // verus!
