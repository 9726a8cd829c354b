use rust_boy::GbGen;

#[test]
fn it_works() {
    let result = 4;
    assert_eq!(result, 4);
}

#[test]
fn lines_are_joined_by_newlines() {
    let mut generator = GbGen::new();
    generator.include_hardware();
    generator.def("BRICK_LEFT", 0x05);
    generator.def("SCORE_TENS", 0x9870);
    generator.section("Header", "ROM0[$100]");
    generator.jp("EntryPoint");
    generator.ds("$150 - @", "0");
    generator.label("EntryPoint");
    generator.ld_a(144);
    generator.ld_hl(512);
    generator.ld_a_str("[rLY]");
    generator.cp(144);
    generator.jp_cond("c", "WaitVBlank");
    generator.db("$FF, $00");
    generator.dw("`01230123");
    generator.comment("done");
    generator.ret();
    assert_eq!(
        generator.output(),
        "INCLUDE\"hardware.inc\"\n\
         DEF BRICK_LEFT EQU 5\n\
         DEF SCORE_TENS EQU 39024\n\
         SECTION \"Header\", ROM0[$100]\n\
         jp EntryPoint\n\
         ds $150 - @, 0\n\
         EntryPoint:\n\
         ld a, 144\n\
         ld hl, 512\n\
         ld a, [rLY]\n\
         cp 144\n\
         jp c, WaitVBlank\n\
         \tdb $FF, $00\n\
         \tdw `01230123\n\
         ; done\n\
         ret"
    );
}

#[test]
fn an_empty_generator_writes_nothing() {
    let generator = GbGen::new();
    assert_eq!(generator.output(), "");
}

#[test]
fn every_instruction_writes_its_line() {
    let mut g = GbGen::new();
    g.call("Memcopy");
    g.dec("b");
    g.inc("de");
    g.ld_b(1);
    g.ld_c(2);
    g.ld_d(3);
    g.ld_e(4);
    g.ld_h(5);
    g.ld_l(6);
    g.ld_bc(1000);
    g.ld_de(65535);
    g.ld_addr_str_a("[rLCDC]");
    g.ld_bc_str("TilesEnd - Tiles");
    g.ld_de_str("Tiles");
    g.ld_hl_str("$9000");
    g.ld_hl_i_str("a");
    g.ld_b_str("a");
    g.ld_c_str("a");
    g.ld_d_str("a");
    g.ld_e_str("a");
    g.ld_h_str("a");
    g.ld_l_str("a");
    g.jr("nz", "Loop");
    g.jr_uncond("Loop");
    g.ret_cond("z");
    g.add("a", "b");
    g.adc("h");
    g.sub("a", "l");
    g.and("PADF_LEFT");
    g.or("a", "c");
    g.xor("a", "b");
    g.cp_str("15");
    g.srl("a");
    g.swap("a");
    g.daa();
    g.ldh("[rP1]", "a");
    g.raw("nop");
    let expected = [
        "call Memcopy",
        "dec b",
        "inc de",
        "ld b, 1",
        "ld c, 2",
        "ld d, 3",
        "ld e, 4",
        "ld h, 5",
        "ld l, 6",
        "ld bc, 1000",
        "ld de, 65535",
        "ld [rLCDC], a",
        "ld bc, TilesEnd - Tiles",
        "ld de, Tiles",
        "ld hl, $9000",
        "ld [hli], a",
        "ld b, a",
        "ld c, a",
        "ld d, a",
        "ld e, a",
        "ld h, a",
        "ld l, a",
        "jr nz, Loop",
        "jr Loop",
        "ret z",
        "add a, b",
        "adc h",
        "sub a, l",
        "and a, PADF_LEFT",
        "or a, c",
        "xor a, b",
        "cp a, 15",
        "srl a",
        "swap a",
        "daa",
        "ldh [rP1], a",
        "nop",
    ];
    assert_eq!(g.output(), expected.join("\n"));
}
