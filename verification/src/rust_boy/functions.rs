//! The routines of a program: the built-in ones and those that the user
//! defines.
//!
//! A built-in routine is written out when it was used. A routine can be
//! called only if it is built in or was defined before.

use crate::gb_asm::{
    Asm, Chunk, Condition, Instr, InstrV, JumpTargetV, Operand, OperandV, Register, clone_instrs,
};
use crate::text::{index_of_text, lemma_index_of_text, same_text};
use crate::text_order::{insert_sorted, sorted};
use vstd::prelude::*;
use vstd::string::StringExecFns;

verus! {

/// A routine that comes with the library.
#[derive(Debug, Clone, Copy, PartialEq, Eq, Hash, Structural)]
pub enum BuiltinFunction {
    /// Copies memory.
    Memcopy,
    /// Waits for the vertical blank.
    WaitVBlank,
    /// Waits for the end of the vertical blank.
    WaitNotVBlank,
    /// Polls the joypad.
    UpdateKeys,
    /// Finds the tile under a pixel.
    GetTileByPixel,
    /// Counts down.
    Delay,
}

/// The routines of a program.
pub struct FunctionRegistry {
    /// The built-in routines that were used, in the order of their first
    /// use.
    used_builtins: Vec<BuiltinFunction>,
    /// The routines that the user defined, with their names; no name occurs
    /// twice.
    user_functions: Vec<(String, Vec<Instr>)>,
    /// The names of the user's routines that were called; no name occurs
    /// twice.
    used_user_functions: Vec<String>,
}

/// The routine that copies `bc` bytes from the address in `de` to the address in `hl`.
pub open spec fn memcopy_routine() -> Seq<InstrV> {
    seq![
        InstrV::Comment { text: "Copy bytes from one area to another"@ },
        InstrV::Comment { text: "@param de: source"@ },
        InstrV::Comment { text: "@param hl: destination"@ },
        InstrV::Comment { text: "@param bc: length"@ },
        InstrV::Label { name: "Memcopy"@ },
        InstrV::Ld { dst: OperandV::Reg(Register::A), src: OperandV::AddrReg(Register::DE) },
        InstrV::Ld { dst: OperandV::AddrRegInc(Register::HL), src: OperandV::Label("a"@) },
        InstrV::Inc { operand: OperandV::Label("de"@) },
        InstrV::Dec { operand: OperandV::Label("bc"@) },
        InstrV::Ld { dst: OperandV::Reg(Register::A), src: OperandV::Label("b"@) },
        InstrV::Or { dst: OperandV::Label("a"@), src: OperandV::Label("c"@) },
        InstrV::JpCond { condition: Condition::NZ, target: JumpTargetV::Label("Memcopy"@) },
        InstrV::Ret,
    ]
}

/// The routine `Memcopy`.
fn generate_memcopy() -> (r: Vec<Instr>)
    ensures
        r.deep_view() == memcopy_routine(),
{
    let mut a = Asm::new();
    a.comment("Copy bytes from one area to another");
    a.comment("@param de: source");
    a.comment("@param hl: destination");
    a.comment("@param bc: length");
    a.label("Memcopy");
    a.ld(Operand::Reg(Register::A), Operand::AddrReg(Register::DE));
    a.ld(Operand::AddrRegInc(Register::HL), Operand::Label(String::from_str("a")));
    a.inc(Operand::Label(String::from_str("de")));
    a.dec(Operand::Label(String::from_str("bc")));
    a.ld(Operand::Reg(Register::A), Operand::Label(String::from_str("b")));
    a.or(Operand::Label(String::from_str("a")), Operand::Label(String::from_str("c")));
    a.jp_cond(Condition::NZ, "Memcopy");
    a.ret();
    a.get_main_instrs()
}

/// The routine that returns once the display has reached the vertical blank.
pub open spec fn wait_vblank_routine() -> Seq<InstrV> {
    seq![
        InstrV::Label { name: "WaitVBlank"@ },
        InstrV::Ld { dst: OperandV::Reg(Register::A), src: OperandV::AddrDef("rLY"@) },
        InstrV::Cp { operand: OperandV::Imm(144) },
        InstrV::JpCond { condition: Condition::C, target: JumpTargetV::Label("WaitVBlank"@) },
        InstrV::Ret,
    ]
}

/// The routine `WaitVBlank`.
fn generate_wait_vblank() -> (r: Vec<Instr>)
    ensures
        r.deep_view() == wait_vblank_routine(),
{
    let mut a = Asm::new();
    a.label("WaitVBlank");
    a.ld(Operand::Reg(Register::A), Operand::AddrDef(String::from_str("rLY")));
    a.cp(Operand::Imm(144));
    a.jp_cond(Condition::C, "WaitVBlank");
    a.ret();
    a.get_main_instrs()
}

/// The routine that returns once the display has left the vertical blank.
pub open spec fn wait_not_vblank_routine() -> Seq<InstrV> {
    seq![
        InstrV::Label { name: "WaitNotVBlank"@ },
        InstrV::Ld { dst: OperandV::Reg(Register::A), src: OperandV::AddrDef("rLY"@) },
        InstrV::Cp { operand: OperandV::Imm(144) },
        InstrV::JpCond { condition: Condition::NC, target: JumpTargetV::Label("WaitNotVBlank"@) },
        InstrV::Ret,
    ]
}

/// The routine `WaitNotVBlank`.
fn generate_wait_not_vblank() -> (r: Vec<Instr>)
    ensures
        r.deep_view() == wait_not_vblank_routine(),
{
    let mut a = Asm::new();
    a.label("WaitNotVBlank");
    a.ld(Operand::Reg(Register::A), Operand::AddrDef(String::from_str("rLY")));
    a.cp(Operand::Imm(144));
    a.jp_cond(Condition::NC, "WaitNotVBlank");
    a.ret();
    a.get_main_instrs()
}

/// The routine that polls the joypad and keeps the pressed keys in `wCurKeys`
/// and the newly pressed ones in `wNewKeys`.
pub open spec fn update_keys_routine() -> Seq<InstrV> {
    seq![
        InstrV::Label { name: "UpdateKeys"@ },
        InstrV::Ld { dst: OperandV::Reg(Register::A), src: OperandV::Label("P1F_GET_BTN"@) },
        InstrV::Call { target: JumpTargetV::Label(".onenibble"@) },
        InstrV::Ld { dst: OperandV::Reg(Register::B), src: OperandV::Reg(Register::A) },
        InstrV::Ld { dst: OperandV::Reg(Register::A), src: OperandV::Label("P1F_GET_DPAD"@) },
        InstrV::Call { target: JumpTargetV::Label(".onenibble"@) },
        InstrV::Swap { operand: OperandV::Reg(Register::A) },
        InstrV::Xor { dst: OperandV::Reg(Register::A), src: OperandV::Reg(Register::B) },
        InstrV::Ld { dst: OperandV::Reg(Register::B), src: OperandV::Reg(Register::A) },
        InstrV::Ld { dst: OperandV::Reg(Register::A), src: OperandV::Label("P1F_GET_NONE"@) },
        InstrV::Ldh { dst: OperandV::AddrDef("rP1"@), src: OperandV::Reg(Register::A) },
        InstrV::Ld { dst: OperandV::Reg(Register::A), src: OperandV::AddrDef("wCurKeys"@) },
        InstrV::Xor { dst: OperandV::Reg(Register::A), src: OperandV::Reg(Register::B) },
        InstrV::And { operand: OperandV::Reg(Register::B) },
        InstrV::Ld { dst: OperandV::AddrDef("wNewKeys"@), src: OperandV::Reg(Register::A) },
        InstrV::Ld { dst: OperandV::Reg(Register::A), src: OperandV::Reg(Register::B) },
        InstrV::Ld { dst: OperandV::AddrDef("wCurKeys"@), src: OperandV::Reg(Register::A) },
        InstrV::Ret,
        InstrV::Label { name: ".onenibble"@ },
        InstrV::Ldh { dst: OperandV::AddrDef("rP1"@), src: OperandV::Reg(Register::A) },
        InstrV::Call { target: JumpTargetV::Label(".knowret"@) },
        InstrV::Ldh { dst: OperandV::Reg(Register::A), src: OperandV::AddrDef("rP1"@) },
        InstrV::Ldh { dst: OperandV::Reg(Register::A), src: OperandV::AddrDef("rP1"@) },
        InstrV::Ldh { dst: OperandV::Reg(Register::A), src: OperandV::AddrDef("rP1"@) },
        InstrV::Or { dst: OperandV::Reg(Register::A), src: OperandV::Imm(0xF0) },
        InstrV::Label { name: ".knowret"@ },
        InstrV::Ret,
    ]
}

/// The routine `UpdateKeys`.
fn generate_update_keys() -> (r: Vec<Instr>)
    ensures
        r.deep_view() == update_keys_routine(),
{
    let mut a = Asm::new();
    a.label("UpdateKeys");
    a.ld(Operand::Reg(Register::A), Operand::Label(String::from_str("P1F_GET_BTN")));
    a.call(".onenibble");
    a.ld(Operand::Reg(Register::B), Operand::Reg(Register::A));
    a.ld(Operand::Reg(Register::A), Operand::Label(String::from_str("P1F_GET_DPAD")));
    a.call(".onenibble");
    a.swap(Operand::Reg(Register::A));
    a.xor(Operand::Reg(Register::A), Operand::Reg(Register::B));
    a.ld(Operand::Reg(Register::B), Operand::Reg(Register::A));
    a.ld(Operand::Reg(Register::A), Operand::Label(String::from_str("P1F_GET_NONE")));
    a.ldh(Operand::AddrDef(String::from_str("rP1")), Operand::Reg(Register::A));
    a.ld(Operand::Reg(Register::A), Operand::AddrDef(String::from_str("wCurKeys")));
    a.xor(Operand::Reg(Register::A), Operand::Reg(Register::B));
    a.and(Operand::Reg(Register::B));
    a.ld(Operand::AddrDef(String::from_str("wNewKeys")), Operand::Reg(Register::A));
    a.ld(Operand::Reg(Register::A), Operand::Reg(Register::B));
    a.ld(Operand::AddrDef(String::from_str("wCurKeys")), Operand::Reg(Register::A));
    a.ret();
    a.label(".onenibble");
    a.ldh(Operand::AddrDef(String::from_str("rP1")), Operand::Reg(Register::A));
    a.call(".knowret");
    a.ldh(Operand::Reg(Register::A), Operand::AddrDef(String::from_str("rP1")));
    a.ldh(Operand::Reg(Register::A), Operand::AddrDef(String::from_str("rP1")));
    a.ldh(Operand::Reg(Register::A), Operand::AddrDef(String::from_str("rP1")));
    a.or(Operand::Reg(Register::A), Operand::Imm(0xF0));
    a.label(".knowret");
    a.ret();
    a.get_main_instrs()
}

/// The routine that turns the pixel position in `b` (column) and `c` (row) into
/// the address of its tile in the tile map, `$9800 + column / 8 + row / 8 *
/// 32`, and loads the tile there.
pub open spec fn get_tile_by_pixel_routine() -> Seq<InstrV> {
    seq![
        InstrV::Comment { text: "Convert a pixel position to a tilemap address"@ },
        InstrV::Comment { text: "hl = $9800 + X + Y * 32"@ },
        InstrV::Comment { text: "@param b: X"@ },
        InstrV::Comment { text: "@param c: Y"@ },
        InstrV::Comment { text: "@return hl: tile address"@ },
        InstrV::Label { name: "GetTileByPixel"@ },
        InstrV::Ld { dst: OperandV::Reg(Register::A), src: OperandV::Reg(Register::C) },
        InstrV::And { operand: OperandV::Imm(0b11111000) },
        InstrV::Ld { dst: OperandV::Reg(Register::L), src: OperandV::Reg(Register::A) },
        InstrV::Ld { dst: OperandV::Reg(Register::H), src: OperandV::Imm(0) },
        InstrV::Add { dst: OperandV::Reg(Register::HL), src: OperandV::Reg(Register::HL) },
        InstrV::Add { dst: OperandV::Reg(Register::HL), src: OperandV::Reg(Register::HL) },
        InstrV::Ld { dst: OperandV::Reg(Register::A), src: OperandV::Reg(Register::B) },
        InstrV::Srl { operand: OperandV::Reg(Register::A) },
        InstrV::Srl { operand: OperandV::Reg(Register::A) },
        InstrV::Srl { operand: OperandV::Reg(Register::A) },
        InstrV::Add { dst: OperandV::Reg(Register::A), src: OperandV::Reg(Register::L) },
        InstrV::Ld { dst: OperandV::Reg(Register::L), src: OperandV::Reg(Register::A) },
        InstrV::Adc { dst: OperandV::Reg(Register::A), src: OperandV::Reg(Register::H) },
        InstrV::Sub { dst: OperandV::Reg(Register::A), src: OperandV::Reg(Register::L) },
        InstrV::Ld { dst: OperandV::Reg(Register::H), src: OperandV::Reg(Register::A) },
        InstrV::Ld { dst: OperandV::Reg(Register::BC), src: OperandV::Label("$9800"@) },
        InstrV::Add { dst: OperandV::Reg(Register::HL), src: OperandV::Reg(Register::BC) },
        InstrV::Ld { dst: OperandV::Reg(Register::A), src: OperandV::AddrReg(Register::HL) },
        InstrV::Ret,
    ]
}

/// The routine `GetTileByPixel`.
fn generate_get_tile_by_pixel() -> (r: Vec<Instr>)
    ensures
        r.deep_view() == get_tile_by_pixel_routine(),
{
    let mut a = Asm::new();
    a.comment("Convert a pixel position to a tilemap address");
    a.comment("hl = $9800 + X + Y * 32");
    a.comment("@param b: X");
    a.comment("@param c: Y");
    a.comment("@return hl: tile address");
    a.label("GetTileByPixel");
    a.ld(Operand::Reg(Register::A), Operand::Reg(Register::C));
    a.and(Operand::Imm(0b11111000));
    a.ld(Operand::Reg(Register::L), Operand::Reg(Register::A));
    a.ld(Operand::Reg(Register::H), Operand::Imm(0));
    a.add(Operand::Reg(Register::HL), Operand::Reg(Register::HL));
    a.add(Operand::Reg(Register::HL), Operand::Reg(Register::HL));
    a.ld(Operand::Reg(Register::A), Operand::Reg(Register::B));
    a.srl(Operand::Reg(Register::A));
    a.srl(Operand::Reg(Register::A));
    a.srl(Operand::Reg(Register::A));
    a.add(Operand::Reg(Register::A), Operand::Reg(Register::L));
    a.ld(Operand::Reg(Register::L), Operand::Reg(Register::A));
    a.adc(Operand::Reg(Register::A), Operand::Reg(Register::H));
    a.sub(Operand::Reg(Register::A), Operand::Reg(Register::L));
    a.ld(Operand::Reg(Register::H), Operand::Reg(Register::A));
    a.ld(Operand::Reg(Register::BC), Operand::Label(String::from_str("$9800")));
    a.add(Operand::Reg(Register::HL), Operand::Reg(Register::BC));
    a.ld(Operand::Reg(Register::A), Operand::AddrReg(Register::HL));
    a.ret();
    a.get_main_instrs()
}

/// The routine that counts `bc` down.
pub open spec fn delay_routine() -> Seq<InstrV> {
    seq![
        InstrV::Comment { text: "Delay loop using BC as counter"@ },
        InstrV::Comment { text: "@param bc: delay counter (higher = longer delay)"@ },
        InstrV::Label { name: "Delay"@ },
        InstrV::Ld { dst: OperandV::Reg(Register::A), src: OperandV::Reg(Register::B) },
        InstrV::Or { dst: OperandV::Reg(Register::A), src: OperandV::Reg(Register::C) },
        InstrV::Dec { operand: OperandV::Reg(Register::BC) },
        InstrV::JrCond { condition: Condition::NZ, target: JumpTargetV::Label("Delay"@) },
        InstrV::Ret,
    ]
}

/// The routine `Delay`.
fn generate_delay() -> (r: Vec<Instr>)
    ensures
        r.deep_view() == delay_routine(),
{
    let mut a = Asm::new();
    a.comment("Delay loop using BC as counter");
    a.comment("@param bc: delay counter (higher = longer delay)");
    a.label("Delay");
    a.ld(Operand::Reg(Register::A), Operand::Reg(Register::B));
    a.or(Operand::Reg(Register::A), Operand::Reg(Register::C));
    a.dec(Operand::Reg(Register::BC));
    a.jr_cond(Condition::NZ, "Delay");
    a.ret();
    a.get_main_instrs()
}

impl BuiltinFunction {
    /// The label of the routine.
    pub open spec fn label_text(self) -> Seq<char> {
        match self {
            BuiltinFunction::Memcopy => "Memcopy"@,
            BuiltinFunction::WaitVBlank => "WaitVBlank"@,
            BuiltinFunction::WaitNotVBlank => "WaitNotVBlank"@,
            BuiltinFunction::UpdateKeys => "UpdateKeys"@,
            BuiltinFunction::GetTileByPixel => "GetTileByPixel"@,
            BuiltinFunction::Delay => "Delay"@,
        }
    }

    /// The built-in routine with the given label.
    pub open spec fn named(name: Seq<char>) -> Option<BuiltinFunction> {
        if name == "Memcopy"@ {
            Some(BuiltinFunction::Memcopy)
        } else if name == "WaitVBlank"@ {
            Some(BuiltinFunction::WaitVBlank)
        } else if name == "WaitNotVBlank"@ {
            Some(BuiltinFunction::WaitNotVBlank)
        } else if name == "UpdateKeys"@ {
            Some(BuiltinFunction::UpdateKeys)
        } else if name == "GetTileByPixel"@ {
            Some(BuiltinFunction::GetTileByPixel)
        } else if name == "Delay"@ {
            Some(BuiltinFunction::Delay)
        } else {
            None
        }
    }

    /// The instructions of the routine.
    pub open spec fn code(self) -> Seq<InstrV> {
        match self {
            BuiltinFunction::Memcopy => memcopy_routine(),
            BuiltinFunction::WaitVBlank => wait_vblank_routine(),
            BuiltinFunction::WaitNotVBlank => wait_not_vblank_routine(),
            BuiltinFunction::UpdateKeys => update_keys_routine(),
            BuiltinFunction::GetTileByPixel => get_tile_by_pixel_routine(),
            BuiltinFunction::Delay => delay_routine(),
        }
    }

    /// The label of the routine.
    pub fn label(&self) -> (r: &'static str)
        ensures
            r@ == self.label_text(),
    {
        match self {
            BuiltinFunction::Memcopy => "Memcopy",
            BuiltinFunction::WaitVBlank => "WaitVBlank",
            BuiltinFunction::WaitNotVBlank => "WaitNotVBlank",
            BuiltinFunction::UpdateKeys => "UpdateKeys",
            BuiltinFunction::GetTileByPixel => "GetTileByPixel",
            BuiltinFunction::Delay => "Delay",
        }
    }

    /// The built-in routine with the given label, if there is one.
    pub fn from_name(name: &str) -> (r: Option<Self>)
        ensures
            r == Self::named(name@),
    {
        if same_text(name, "Memcopy") {
            Some(BuiltinFunction::Memcopy)
        } else if same_text(name, "WaitVBlank") {
            Some(BuiltinFunction::WaitVBlank)
        } else if same_text(name, "WaitNotVBlank") {
            Some(BuiltinFunction::WaitNotVBlank)
        } else if same_text(name, "UpdateKeys") {
            Some(BuiltinFunction::UpdateKeys)
        } else if same_text(name, "GetTileByPixel") {
            Some(BuiltinFunction::GetTileByPixel)
        } else if same_text(name, "Delay") {
            Some(BuiltinFunction::Delay)
        } else {
            None
        }
    }

    /// The instructions of the routine.
    pub fn generate(&self) -> (r: Vec<Instr>)
        ensures
            r.deep_view() == self.code(),
    {
        match self {
            BuiltinFunction::Memcopy => generate_memcopy(),
            BuiltinFunction::WaitVBlank => generate_wait_vblank(),
            BuiltinFunction::WaitNotVBlank => generate_wait_not_vblank(),
            BuiltinFunction::UpdateKeys => generate_update_keys(),
            BuiltinFunction::GetTileByPixel => generate_get_tile_by_pixel(),
            BuiltinFunction::Delay => generate_delay(),
        }
    }
}

/// The labels of the built-in routines.
pub open spec fn builtin_names() -> Seq<Seq<char>> {
    seq![
        "Memcopy"@,
        "WaitVBlank"@,
        "WaitNotVBlank"@,
        "UpdateKeys"@,
        "GetTileByPixel"@,
        "Delay"@,
    ]
}

/// The names of the user's routines.
pub open spec fn user_names(users: Seq<(String, Vec<Instr>)>) -> Seq<Seq<char>> {
    Seq::new(users.len(), |i: int| users[i].0@)
}

/// The user's routines as names and instructions.
pub open spec fn users_view(users: Seq<(String, Vec<Instr>)>) -> Seq<(Seq<char>, Seq<InstrV>)> {
    Seq::new(users.len(), |i: int| (users[i].0@, users[i].1.deep_view()))
}

/// The texts of a list of strings.
pub open spec fn texts(names: Seq<String>) -> Seq<Seq<char>> {
    names.map_values(|s: String| s@)
}

/// The user's routines after `name` was defined as `body`: a routine of
/// that name gets the new body and keeps its place, a new one comes last.
pub open spec fn defined(
    users: Seq<(Seq<char>, Seq<InstrV>)>,
    name: Seq<char>,
    body: Seq<InstrV>,
) -> Seq<(Seq<char>, Seq<InstrV>)> {
    let i = index_of_text(Seq::new(users.len(), |k: int| users[k].0), name);
    if 0 <= i < users.len() {
        users.update(i, (name, body))
    } else {
        users.push((name, body))
    }
}

/// The list with `item` as its last element, unless it holds `item`
/// already.
pub open spec fn with_item<T>(list: Seq<T>, item: T) -> Seq<T> {
    if list.contains(item) {
        list
    } else {
        list.push(item)
    }
}

/// The first `k` of the used built-in routines, one after the other.
pub open spec fn builtin_code(used: Seq<BuiltinFunction>, k: int) -> Seq<InstrV>
    decreases k,
{
    if k <= 0 || k > used.len() {
        Seq::<InstrV>::empty()
    } else {
        builtin_code(used, k - 1) + used[k - 1].code()
    }
}

/// The first `k` of the user's routines, one after the other.
pub open spec fn user_code(users: Seq<(String, Vec<Instr>)>, k: int) -> Seq<InstrV>
    decreases k,
{
    if k <= 0 || k > users.len() {
        Seq::<InstrV>::empty()
    } else {
        user_code(users, k - 1) + users[k - 1].1.deep_view()
    }
}

/// The index of the first of the user's routines with the given name; the
/// number of routines where there is none.
fn find_user(users: &Vec<(String, Vec<Instr>)>, name: &str) -> (i: usize)
    ensures
        i == index_of_text(user_names(users@), name@),
        i <= users.len(),
        i < users.len() <==> user_names(users@).contains(name@),
{
    let ghost names = user_names(users@);
    let n: usize = users.len();
    let mut i: usize = 0;
    while i < n
        invariant
            n == users.len(),
            i <= n,
            names == user_names(users@),
            forall|j: int| 0 <= j < i ==> #[trigger] names[j] != name@,
        decreases n - i,
    {
        if same_text(users[i].0.as_str(), name) {
            proof {
                lemma_index_of_text(names, name@, i as int);
            }
            return i;
        }
        i = i + 1;
    }
    proof {
        lemma_index_of_text(names, name@, n as int);
    }
    n
}

/// Whether the list holds the text.
fn holds_text(list: &Vec<String>, name: &str) -> (r: bool)
    ensures
        r == texts(list@).contains(name@),
{
    let n: usize = list.len();
    let mut i: usize = 0;
    while i < n
        invariant
            n == list.len(),
            i <= n,
            forall|j: int| 0 <= j < i ==> #[trigger] texts(list@)[j] != name@,
        decreases n - i,
    {
        if same_text(list[i].as_str(), name) {
            assert(texts(list@)[i as int] == name@);
            return true;
        }
        i = i + 1;
    }
    false
}

/// Whether the list holds the routine.
fn holds_builtin(list: &Vec<BuiltinFunction>, func: BuiltinFunction) -> (r: bool)
    ensures
        r == list@.contains(func),
{
    let n: usize = list.len();
    let mut i: usize = 0;
    while i < n
        invariant
            n == list.len(),
            i <= n,
            forall|j: int| 0 <= j < i ==> #[trigger] list@[j] != func,
        decreases n - i,
    {
        if list[i] == func {
            return true;
        }
        i = i + 1;
    }
    false
}

impl FunctionRegistry {
    /// The built-in routines that were used, in the order of their first
    /// use.
    pub closed spec fn used(&self) -> Seq<BuiltinFunction> {
        self.used_builtins@
    }

    /// The routines that the user defined, in the order of their first
    /// definition.
    pub closed spec fn users(&self) -> Seq<(String, Vec<Instr>)> {
        self.user_functions@
    }

    /// The names of the user's routines that were called, in the order of
    /// their first call.
    pub closed spec fn called(&self) -> Seq<String> {
        self.used_user_functions@
    }

    /// Whether a routine of the given name can be called: it is built in or
    /// the user defined it.
    pub open spec fn knows(&self, name: Seq<char>) -> bool {
        BuiltinFunction::named(name) is Some || user_names(self.users()).contains(name)
    }

    /// A registry in which no routine was used or defined.
    pub fn new() -> (r: Self)
        ensures
            r.used() == Seq::<BuiltinFunction>::empty(),
            r.users() == Seq::<(String, Vec<Instr>)>::empty(),
            r.called() == Seq::<String>::empty(),
    {
        Self {
            used_builtins: Vec::new(),
            user_functions: Vec::new(),
            used_user_functions: Vec::new(),
        }
    }

    /// Marks a built-in routine as used, so that it is written out.
    pub fn use_function(&mut self, func: BuiltinFunction)
        ensures
            final(self).used() == with_item(old(self).used(), func),
            final(self).users() == old(self).users(),
            final(self).called() == old(self).called(),
    {
        if !holds_builtin(&self.used_builtins, func) {
            self.used_builtins.push(func);
        }
    }

    /// Whether a built-in routine was used.
    pub fn is_used(&self, func: BuiltinFunction) -> (r: bool)
        ensures
            r == self.used().contains(func),
    {
        holds_builtin(&self.used_builtins, func)
    }

    /// Defines a routine of the user. A routine of that name that exists
    /// already gets the new body.
    pub fn register_user_function(&mut self, name: &str, body: Vec<Instr>)
        ensures
            users_view(final(self).users()) == defined(
                users_view(old(self).users()),
                name@,
                body.deep_view(),
            ),
            final(self).used() == old(self).used(),
            final(self).called() == old(self).called(),
    {
        let ghost before = users_view(self.users());
        let ghost names = user_names(self.users());
        assert(names =~= Seq::new(before.len(), |k: int| before[k].0));
        let i = find_user(&self.user_functions, name);
        if i < self.user_functions.len() {
            self.user_functions[i] = (String::from_str(name), body);
        } else {
            self.user_functions.push((String::from_str(name), body));
        }
    }

    /// Whether a routine of the given name can be called.
    pub fn function_exists(&self, name: &str) -> (r: bool)
        ensures
            r == self.knows(name@),
    {
        if BuiltinFunction::from_name(name).is_some() {
            true
        } else {
            find_user(&self.user_functions, name) < self.user_functions.len()
        }
    }

    /// Records a call. A built-in routine is marked as used, a routine of
    /// the user as called. Returns whether the routine can be called; when
    /// it cannot, nothing is recorded.
    pub fn call_function(&mut self, name: &str) -> (r: bool)
        ensures
            r == old(self).knows(name@),
            final(self).users() == old(self).users(),
            final(self).used() == match BuiltinFunction::named(name@) {
                Some(builtin) => with_item(old(self).used(), builtin),
                None => old(self).used(),
            },
            texts(final(self).called()) == if BuiltinFunction::named(name@) is None && r {
                with_item(texts(old(self).called()), name@)
            } else {
                texts(old(self).called())
            },
    {
        match BuiltinFunction::from_name(name) {
            Some(builtin) => {
                self.use_function(builtin);
                true
            },
            None => {
                if find_user(&self.user_functions, name) < self.user_functions.len() {
                    if !holds_text(&self.used_user_functions, name) {
                        self.used_user_functions.push(String::from_str(name));
                    }
                    true
                } else {
                    false
                }
            },
        }
    }

    /// The names of the routines that can be called, in order: the
    /// built-in ones and the user's.
    pub fn available_functions(&self) -> (r: Vec<String>)
        ensures
            sorted(texts(r@)),
            texts(r@).to_multiset() == (builtin_names() + user_names(self.users())).to_multiset(),
    {
        let ghost users = user_names(self.users());
        let mut names: Vec<String> = Vec::new();
        assert(texts(names@) =~= Seq::<Seq<char>>::empty());
        proof {
            broadcast use vstd::seq_lib::to_multiset_build;

        }
        insert_sorted(&mut names, String::from_str("Memcopy"));
        insert_sorted(&mut names, String::from_str("WaitVBlank"));
        insert_sorted(&mut names, String::from_str("WaitNotVBlank"));
        insert_sorted(&mut names, String::from_str("UpdateKeys"));
        insert_sorted(&mut names, String::from_str("GetTileByPixel"));
        insert_sorted(&mut names, String::from_str("Delay"));
        proof {
            let b = builtin_names();
            let e = Seq::<Seq<char>>::empty();
            assert(b =~= e.push(b[0]).push(b[1]).push(b[2]).push(b[3]).push(b[4]).push(b[5]));
        }
        let n: usize = self.user_functions.len();
        let mut i: usize = 0;
        while i < n
            invariant
                n == self.user_functions.len(),
                i <= n,
                users == user_names(self.users()),
                sorted(texts(names@)),
                texts(names@).to_multiset() == (builtin_names() + users.take(
                    i as int,
                )).to_multiset(),
            decreases n - i,
        {
            proof {
                broadcast use vstd::seq_lib::to_multiset_build;

                assert((builtin_names() + users.take(i + 1)) =~= (builtin_names() + users.take(
                    i as int,
                )).push(users[i as int]));
            }
            insert_sorted(&mut names, self.user_functions[i].0.clone());
            i = i + 1;
        }
        assert(users.take(n as int) =~= users);
        names
    }

    /// The instructions of all routines: the used built-in ones in the
    /// order of their first use, then the user's in the order of their
    /// definition.
    pub fn generate_all(&self) -> (r: Vec<Instr>)
        ensures
            r.deep_view() == builtin_code(self.used(), self.used().len() as int) + user_code(
                self.users(),
                self.users().len() as int,
            ),
    {
        let ghost used = self.used();
        let ghost users = self.users();
        let mut a = Asm::new();
        let n: usize = self.used_builtins.len();
        let mut i: usize = 0;
        while i < n
            invariant
                n == self.used_builtins.len(),
                i <= n,
                used == self.used(),
                a@.current == Chunk::Main,
                a@.content(Chunk::Main) == builtin_code(used, i as int),
            decreases n - i,
        {
            a.emit_all(self.used_builtins[i].generate());
            i = i + 1;
        }
        let ghost first = builtin_code(used, n as int);
        let m: usize = self.user_functions.len();
        let mut j: usize = 0;
        while j < m
            invariant
                m == self.user_functions.len(),
                j <= m,
                users == self.users(),
                a@.current == Chunk::Main,
                a@.content(Chunk::Main) == first + user_code(users, j as int),
            decreases m - j,
        {
            a.emit_all(clone_instrs(&self.user_functions[j].1));
            j = j + 1;
        }
        a.get_main_instrs()
    }
}

} // verus!
