//! The cartridge header.

use crate::gb_asm::{Asm, Instr, InstrV, JumpTargetV};
use vstd::prelude::*;

verus! {

/// The cartridge header.
pub open spec fn header_section_code() -> Seq<InstrV> {
    seq![
        InstrV::Section { name: "Header"@, mem_type: "ROM0[$100]"@ },
        InstrV::Jp { target: JumpTargetV::Label("EntryPoint"@) },
        InstrV::Ds { num_bytes: "$150 - @"@, starter_point: "0"@ },
    ]
}

/// The cartridge header: its section, the jump to the entry point, and the
/// space that the header occupies.
pub fn header_section() -> (r: Vec<Instr>)
    ensures
        r.deep_view() == header_section_code(),
{
    let mut a = Asm::new();
    a.section("Header", "ROM0[$100]");
    a.jp("EntryPoint");
    a.ds("$150 - @", "0");
    a.get_main_instrs()
}

} // verus!
