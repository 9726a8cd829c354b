use rust_boy::gb_asm::{Asm, Chunk, Condition, Instr, JumpTarget, Operand, Register};

#[test]
fn chunks_are_written_in_their_fixed_order() {
    let mut a = Asm::new();
    a.chunk(Chunk::Tilemap).db("$00");
    a.chunk(Chunk::Data).label("wScore");
    a.chunk(Chunk::Functions).label("Wait").ret();
    a.chunk(Chunk::Main).ld_a(1);
    a.chunk(Chunk::Tiles).dw("`0123");
    a.chunk(Chunk::MainLoop).jp("Main");
    a.chunk(Chunk::Init).label("EntryPoint");
    a.chunk(Chunk::Constants).def("ONE", "1");
    a.chunk(Chunk::Header).include_hardware();
    a.chunk(Chunk::Main).ld_a(2);
    assert_eq!(
        a.to_asm(),
        "    INCLUDE \"hardware.inc\"\n\n    DEF ONE EQU 1\n\n    EntryPoint:\n\n    jp Main\n\n    \
         ld a, 1\n    ld a, 2\n\n    Wait:\n    ret\n\n    wScore:\n\n    dw `0123\n\n    db $00\n\n"
    );
}

#[test]
fn the_order_of_insertion_does_not_show_in_the_output() {
    let mut first = Asm::new();
    first.chunk(Chunk::Main).ld_a(1);
    first.chunk(Chunk::Functions).label("F");
    first.chunk(Chunk::Main).ld_b(2);
    first.chunk(Chunk::Data).db("1");
    first.chunk(Chunk::Functions).ret();

    let mut second = Asm::new();
    second.chunk(Chunk::Data).db("1");
    second.chunk(Chunk::Functions).label("F").ret();
    second.chunk(Chunk::Main).ld_a(1).ld_b(2);

    let mut third = Asm::new();
    third.chunk(Chunk::Functions).label("F");
    third.chunk(Chunk::Main).ld_a(1);
    third.chunk(Chunk::Data).db("1");
    third.chunk(Chunk::Tiles).emit_all(Vec::new());
    third.chunk(Chunk::Main).ld_b(2);
    third.chunk(Chunk::Functions).ret();
    third.chunk(Chunk::Header);

    assert_eq!(first.to_asm(), second.to_asm());
    assert_eq!(first.to_asm(), third.to_asm());
    assert_eq!(
        first.to_asm(),
        "    ld a, 1\n    ld b, 2\n\n    F:\n    ret\n\n    db 1\n\n"
    );
}

#[test]
fn empty_chunks_write_nothing() {
    let mut a = Asm::new();
    assert_eq!(a.to_asm(), "");
    assert!(a.get_chunk(Chunk::Main).is_none());
    assert!(a.get_main_instrs().is_empty());
    a.emit_all(Vec::new());
    assert_eq!(a.to_asm(), "");
    assert!(a.get_chunk(Chunk::Main).is_some());
    assert!(a.get_chunk(Chunk::Data).is_none());
    a.chunk(Chunk::Data).raw("");
    assert_eq!(a.to_asm(), "    \n\n");
    assert_eq!(a.get_chunk(Chunk::Data).unwrap().len(), 1);
}

#[test]
fn every_instruction_has_its_text() {
    let reg = |r| Operand::Reg(r);
    let label = |s: &str| JumpTarget::Label(s.to_string());
    let cases: Vec<(Instr, &str)> = vec![
        (Instr::Ld { dst: reg(Register::A), src: Operand::Imm(255) }, "ld a, 255"),
        (Instr::Ld { dst: reg(Register::HL), src: Operand::Imm16(65535) }, "ld hl, 65535"),
        (Instr::Ld { dst: reg(Register::A), src: Operand::Addr(0x9800) }, "ld a, [$9800]"),
        (Instr::Ld { dst: Operand::Addr(0x00ff), src: reg(Register::B) }, "ld [$00ff], b"),
        (Instr::Ld { dst: Operand::Addr(0xabcd), src: reg(Register::C) }, "ld [$abcd], c"),
        (Instr::Ld { dst: Operand::AddrDef("rLCDC".into()), src: reg(Register::A) }, "ld [rLCDC], a"),
        (Instr::Ld { dst: reg(Register::A), src: Operand::AddrReg(Register::DE) }, "ld a, [de]"),
        (Instr::Ld { dst: Operand::AddrRegInc(Register::HL), src: reg(Register::A) }, "ld [hli], a"),
        (Instr::Ld { dst: reg(Register::SP), src: Operand::Label("$FFFE".into()) }, "ld sp, $FFFE"),
        (Instr::Ldh { dst: Operand::Label("rP1".into()), src: reg(Register::A) }, "ldh rP1, a"),
        (Instr::Add { dst: reg(Register::HL), src: reg(Register::BC) }, "add hl, bc"),
        (Instr::AdcA { operand: reg(Register::H) }, "adc h"),
        (Instr::Adc { dst: reg(Register::A), src: reg(Register::H) }, "adc a, h"),
        (Instr::Sub { dst: reg(Register::A), src: reg(Register::L) }, "sub a, l"),
        (Instr::Inc { operand: reg(Register::D) }, "inc d"),
        (Instr::Dec { operand: reg(Register::E) }, "dec e"),
        (Instr::And { operand: Operand::Imm(248) }, "and a, 248"),
        (Instr::Or { dst: reg(Register::A), src: reg(Register::C) }, "or a, c"),
        (Instr::Xor { dst: reg(Register::A), src: reg(Register::B) }, "xor a, b"),
        (Instr::Cp { operand: Operand::Imm(144) }, "cp 144"),
        (Instr::Srl { operand: reg(Register::A) }, "srl a"),
        (Instr::Swap { operand: reg(Register::A) }, "swap a"),
        (Instr::Daa, "daa"),
        (Instr::Jp { target: label("Main") }, "jp Main"),
        (Instr::Jp { target: JumpTarget::Addr(0x0150) }, "jp $0150"),
        (Instr::JpCond { condition: Condition::NZ, target: label("Loop") }, "jp nz, Loop"),
        (Instr::Jr { target: label("Loop") }, "jr Loop"),
        (Instr::JrCond { condition: Condition::NC, target: label("Loop") }, "jr nc, Loop"),
        (Instr::Call { target: label("Memcopy") }, "call Memcopy"),
        (Instr::Ret, "ret"),
        (Instr::RetCond { condition: Condition::Z }, "ret z"),
        (Instr::RetCond { condition: Condition::C }, "ret c"),
        (Instr::Ds { num_bytes: "$150 - @".into(), starter_point: "0".into() }, "ds $150 - @, 0"),
        (Instr::Include { file: "hardware.inc".into() }, "INCLUDE \"hardware.inc\""),
        (Instr::Incbin { file: "a.bin".into(), offset: None, length: None }, "INCBIN \"a.bin\""),
        (Instr::Incbin { file: "a.bin".into(), offset: Some(16), length: None }, "INCBIN \"a.bin\",16"),
        (Instr::Incbin { file: "a.bin".into(), offset: Some(16), length: Some(32) }, "INCBIN \"a.bin\",16,32"),
        (Instr::Incbin { file: "a.bin".into(), offset: None, length: Some(32) }, "INCBIN \"a.bin\",0,32"),
        (Instr::Incbin { file: "a.bin".into(), offset: Some(4294967295), length: Some(0) }, "INCBIN \"a.bin\",4294967295,0"),
        (Instr::Def { label: "ONE".into(), value: "1".into() }, "DEF ONE EQU 1"),
        (Instr::Section { name: "Header".into(), mem_type: "ROM0[$100]".into() }, "SECTION \"Header\", ROM0[$100]"),
        (Instr::Label { name: "Main".into() }, "Main:"),
        (Instr::Comment { text: "hello".into() }, "; hello"),
        (Instr::Db { values: "$FF, $00".into() }, "db $FF, $00"),
        (Instr::Dw { value: "`01230123".into() }, "dw `01230123"),
        (Instr::Raw { line: "nop".into() }, "nop"),
    ];
    for (instr, text) in cases {
        assert_eq!(instr.to_string(), text);
        assert_eq!(instr.clone().to_string(), text);
    }
    let registers = [
        (Register::A, "a"), (Register::B, "b"), (Register::C, "c"), (Register::D, "d"),
        (Register::E, "e"), (Register::H, "h"), (Register::L, "l"), (Register::SP, "sp"),
        (Register::PC, "pc"), (Register::AF, "af"), (Register::BC, "bc"), (Register::DE, "de"),
        (Register::HL, "hl"),
    ];
    for (register, text) in registers {
        assert_eq!(register.to_string(), text);
    }
    assert_eq!(Condition::Z.negated(), Condition::NZ);
    assert_eq!(Condition::NZ.negated(), Condition::Z);
    assert_eq!(Condition::C.negated(), Condition::NC);
    assert_eq!(Condition::NC.negated(), Condition::C);
}

#[test]
fn every_builder_method_emits_its_instruction() {
    let mut a = Asm::new();
    a.ld(Operand::Reg(Register::A), Operand::Reg(Register::B))
        .ld_a(1).ld_b(2).ld_c(3).ld_d(4).ld_e(5).ld_h(6).ld_l(7)
        .ld_bc(8).ld_de(9).ld_hl(10)
        .ld_a_label("x").ld_bc_label("x").ld_de_label("x").ld_hl_label("x").ld_hli_label("x")
        .ld_b_label("x").ld_c_label("x").ld_d_label("x").ld_e_label("x").ld_h_label("x").ld_l_label("x")
        .ld_addr_label_a("[x]")
        .ldh(Operand::Reg(Register::A), Operand::Label("x".into()))
        .ldh_label("x", "y")
        .ld_a_addr_def("x").ld_addr_def_a("x").ld_a_addr_reg(Register::HL)
        .add(Operand::Reg(Register::A), Operand::Imm(1)).add_label("x", "y")
        .adc_a(Operand::Reg(Register::H)).adc(Operand::Reg(Register::A), Operand::Reg(Register::H)).adc_label("x")
        .sub(Operand::Reg(Register::A), Operand::Imm(1)).sub_label("x", "y")
        .inc(Operand::Reg(Register::A)).inc_label("x").dec(Operand::Reg(Register::A)).dec_label("x")
        .and(Operand::Imm(1)).and_label("x")
        .or(Operand::Reg(Register::A), Operand::Imm(1)).or_label("x", "y")
        .xor(Operand::Reg(Register::A), Operand::Imm(1)).xor_label("x", "y")
        .cp(Operand::Reg(Register::B)).cp_imm(1).cp_label("x")
        .srl(Operand::Reg(Register::A)).srl_label("x").swap(Operand::Reg(Register::A)).swap_label("x")
        .daa()
        .jp("x").jp_cond(Condition::Z, "x").jr("x").jr_cond(Condition::NC, "x").call("x").ret().ret_cond(Condition::C)
        .ds("1", "2").include_hardware().include_file("x.inc").incbin("x.bin")
        .incbin_range("x.bin", 1, 2).incbin_offset("x.bin", 3)
        .def("x", "1").section("x", "ROM0").label("x").comment("x").db("x").dw("x").raw("x");
    let expected = [
        "ld a, b", "ld a, 1", "ld b, 2", "ld c, 3", "ld d, 4", "ld e, 5", "ld h, 6", "ld l, 7",
        "ld bc, 8", "ld de, 9", "ld hl, 10",
        "ld a, x", "ld bc, x", "ld de, x", "ld hl, x", "ld [hli], x",
        "ld b, x", "ld c, x", "ld d, x", "ld e, x", "ld h, x", "ld l, x",
        "ld [x], a",
        "ldh a, x", "ldh x, y",
        "ld a, [x]", "ld [x], a", "ld a, [hl]",
        "add a, 1", "add x, y",
        "adc h", "adc a, h", "adc x",
        "sub a, 1", "sub x, y",
        "inc a", "inc x", "dec a", "dec x",
        "and a, 1", "and a, x",
        "or a, 1", "or x, y",
        "xor a, 1", "xor x, y",
        "cp b", "cp 1", "cp x",
        "srl a", "srl x", "swap a", "swap x",
        "daa",
        "jp x", "jp z, x", "jr x", "jr nc, x", "call x", "ret", "ret c",
        "ds 1, 2", "INCLUDE \"hardware.inc\"", "INCLUDE \"x.inc\"", "INCBIN \"x.bin\"",
        "INCBIN \"x.bin\",1,2", "INCBIN \"x.bin\",3",
        "DEF x EQU 1", "SECTION \"x\", ROM0", "x:", "; x", "db x", "dw x", "x",
    ];
    let code: Vec<String> = a.get_main_instrs().iter().map(|i| i.to_string()).collect();
    assert_eq!(code, expected);
    assert_eq!(code.len(), 73);
}
