use rust_boy::gb_asm::{Instr, Operand, Register};
use rust_boy::gb_std::flow::{If, IfA};
use rust_boy::gb_std::inputs::PadButton;
use rust_boy::rust_boy::{
    AnimationType, BuildError, BuiltinFunction, InputManager, MemoryRegion, RustBoy, TileSource,
};

fn load(reg: Register, value: u8) -> Vec<Instr> {
    vec![Instr::Ld {
        dst: Operand::Reg(reg),
        src: Operand::Imm(value),
    }]
}

#[test]
fn test_new_rustboy() {
    let gb = RustBoy::new();
    assert!(gb.tiles.is_empty());
    assert!(gb.vars.is_empty());
}

#[test]
fn test_if_counter() {
    let mut gb = RustBoy::new();

    assert_eq!(gb.next_if_counter(), 0);
    assert_eq!(gb.next_if_counter(), 1);
    assert_eq!(gb.next_if_counter(), 2);
}

#[test]
fn test_unique_label() {
    let mut gb = RustBoy::new();

    assert_eq!(gb.unique_label("loop"), "loop_0");
    assert_eq!(gb.unique_label("loop"), "loop_1");
    assert_eq!(gb.unique_label("check"), "check_2");
}

#[test]
fn test_define_const() {
    let mut gb = RustBoy::new();

    gb.define_const("BRICK_LEFT", "0x05");
    gb.define_const_hex("SCORE_ADDR", 0x9870);

    let output = gb.build().unwrap();
    assert!(output.contains("DEF BRICK_LEFT EQU 0x05"));
    assert!(output.contains("DEF SCORE_ADDR EQU $9870"));
}

#[test]
fn test_basic_build() {
    let mut gb = RustBoy::new();

    let output = gb.build().unwrap();

    // Should contain basic structure
    assert!(output.contains("INCLUDE \"hardware.inc\""));
    assert!(output.contains("EntryPoint:"));
    assert!(output.contains("Main:"));
    assert!(output.contains("WaitVBlank:"));
}

#[test]
fn an_empty_program_is_built_in_chunk_order() {
    let mut gb = RustBoy::new();
    let output = gb.build().unwrap();
    let expected = "    INCLUDE \"hardware.inc\"\n\
        \x20   SECTION \"Header\", ROM0[$100]\n\
        \x20   jp EntryPoint\n\
        \x20   ds $150 - @, 0\n\
        \n\
        \x20   EntryPoint:\n\
        \x20   call WaitVBlank\n\
        \x20   ld a, 0\n\
        \x20   ld [rLCDC], a\n\
        \x20   ld a, LCDCF_ON | LCDCF_BGON | LCDCF_OBJON | LCDCF_OBJ16\n\
        \x20   ld [rLCDC], a\n\
        \x20   ld a, 228\n\
        \x20   ld [rBGP], a\n\
        \x20   ld a, 228\n\
        \x20   ld [rOBP0], a\n\
        \n\
        \x20   Main:\n\
        \x20   call WaitNotVBlank\n\
        \x20   call WaitVBlank\n\
        \x20   jp Main\n\
        \n\
        \x20   WaitVBlank:\n\
        \x20   ld a, [rLY]\n\
        \x20   cp 144\n\
        \x20   jp c, WaitVBlank\n\
        \x20   ret\n\
        \x20   WaitNotVBlank:\n\
        \x20   ld a, [rLY]\n\
        \x20   cp 144\n\
        \x20   jp nc, WaitNotVBlank\n\
        \x20   ret\n\
        \n";
    assert_eq!(output, expected);
}

#[test]
fn an_unknown_call_is_refused_with_the_known_names() {
    let mut gb = RustBoy::new();
    gb.define_function("IsWallTile", Vec::new());
    gb.define_function("Bounce", Vec::new());
    match gb.call("NoSuchRoutine") {
        Err(BuildError::UnknownFunction { name, available }) => {
            assert_eq!(name, "NoSuchRoutine");
            assert_eq!(
                available,
                vec![
                    "Bounce",
                    "Delay",
                    "GetTileByPixel",
                    "IsWallTile",
                    "Memcopy",
                    "UpdateKeys",
                    "WaitNotVBlank",
                    "WaitVBlank",
                ]
            );
        }
        other => panic!("expected an unknown function, got {:?}", other.map(|c| c.len())),
    }
    let message = gb.call("Nope").unwrap_err().message();
    assert_eq!(
        message,
        "Unknown function 'Nope'. Available functions: Bounce, Delay, GetTileByPixel, \
         IsWallTile, Memcopy, UpdateKeys, WaitNotVBlank, WaitVBlank"
    );
    let output = gb.build().unwrap();
    assert!(!output.contains("NoSuchRoutine"));
    assert!(!output.contains("Nope"));
}

#[test]
fn a_known_call_is_emitted_and_its_builtin_written_out() {
    let mut gb = RustBoy::new();
    assert!(gb.function_exists("Delay"));
    assert!(!gb.function_exists("Bounce"));
    let code = gb.call("Delay").unwrap();
    assert_eq!(code.len(), 1);
    assert_eq!(code[0].to_string(), "call Delay");
    gb.add_to_main_loop(code);
    gb.define_function_from("Bounce", load(Register::A, 1));
    assert!(gb.function_exists("Bounce"));
    assert!(gb.call_args("Bounce", load(Register::B, 2)).is_ok());
    assert!(gb.call_args("Missing", load(Register::B, 3)).is_err());
    let output = gb.build().unwrap();
    assert!(output.contains("    call Delay\n    ld b, 2\n    call Bounce\n    jp Main\n"));
    assert!(output.contains("    Delay:\n"));
    assert!(output.contains("    Bounce:\n    ld a, 1\n    ret\n"));
    assert!(!output.contains("ld b, 3"));
}

#[test]
fn blocks_in_a_program_share_one_counter() {
    let mut gb = RustBoy::new();
    gb.init(IfA::eq("ONE", load(Register::C, 1)));
    gb.add_to_main_loop(If::lt(
        load(Register::A, 1),
        load(Register::A, 2),
        IfA::ne("TWO", load(Register::C, 2)),
    ));
    gb.define_function_from("Check", IfA::gt("THREE", load(Register::C, 3)));
    assert_eq!(gb.next_if_counter(), 4);
    let output = gb.build().unwrap();
    for n in 0..4 {
        let label = format!("    .end_if_{}:\n", n);
        assert_eq!(output.matches(&label).count(), 1);
    }
}

#[test]
fn raw_code_is_written_in_the_main_chunk() {
    let mut gb = RustBoy::new();
    gb.raw(|a| {
        a.ld_a(0x42);
        a.ret();
    });
    gb.use_function(BuiltinFunction::Delay);
    gb.set_animation_delay(3);
    let output = gb.build().unwrap();
    assert!(output.contains(
        "    jp Main\n\n    ld a, 66\n    ret\n\n    ; Delay loop using BC as counter\n"
    ));
}

#[test]
fn inputs_create_their_variables_and_the_poll() {
    let mut gb = RustBoy::new();
    assert!(gb.add_inputs(InputManager::new()).is_ok());
    assert!(gb.vars.is_empty());
    let mut inputs = InputManager::new();
    inputs.on_press(PadButton::A, load(Register::C, 9));
    assert!(gb.add_inputs(inputs).is_ok());
    assert!(!gb.vars.is_empty());
    let output = gb.build().unwrap();
    assert!(output.contains("    call UpdateKeys\n    CheckA:\n"));
    assert!(output.contains("    UpdateKeys:\n"));
    assert!(output.contains("    SECTION \"Variables\", WRAM0\n    wCurKeys: db\n    wNewKeys: db\n"));
}

#[test]
fn a_sprite_with_an_animation_is_built() {
    let mut gb = RustBoy::new();
    let coin = gb
        .add_sprite("Coin", TileSource::from_file("coin.2bpp"), 80, 72, 0)
        .unwrap();
    gb.sprites
        .add_animation(coin, "CoinAnim", 0, 6, AnimationType::Loop);
    let output = gb.build().unwrap();
    assert!(output.contains("    ld de, Coin\n    ld hl, $8000\n    ld bc, CoinEnd - Coin\n    call Memcopy\n"));
    assert!(output.contains("    ld a, 88\n    ld [hli], a\n    ld a, 88\n    ld [hli], a\n"));
    assert!(output.contains("    wFrameCounter: db\n    wAnim_CoinAnim_Active: db\n"));
    assert!(output.contains("    ld a, [wAnim_CoinAnim_Active]\n    cp 0\n    jr z, .skip_CoinAnim\n    call Anim_CoinAnim\n    .skip_CoinAnim:\n    AnimEnd:\n"));
    assert!(output.contains(
        "    Anim_CoinAnim:\n    ld a, [_OAMRAM+2]\n    inc a\n    cp 0\n    jr c, .reset_CoinAnim\n    cp 7\n    jr c, .store_CoinAnim\n    .reset_CoinAnim:\n    ld a, 0\n    .store_CoinAnim:\n    ld [_OAMRAM+2], a\n    ret\n"
    ));
    assert!(output.contains("    Coin:\n    INCBIN \"coin.2bpp\"\n    CoinEnd:\n"));
}

#[test]
fn a_full_object_memory_refuses_a_sprite() {
    let mut gb = RustBoy::new();
    for i in 0..40 {
        let name = format!("S{}", i);
        assert!(gb
            .add_sprite(&name, TileSource::from_file("s.2bpp"), 0, 0, 0)
            .is_ok());
    }
    match gb.add_sprite("One more", TileSource::from_file("s.2bpp"), 0, 0, 0) {
        Err(BuildError::RegionExhausted(region)) => assert_eq!(region, MemoryRegion::Oam),
        _ => panic!("expected object memory to be exhausted"),
    }
    assert_eq!(
        BuildError::RegionExhausted(MemoryRegion::Oam).message(),
        "Memory region exhausted: OAM"
    );
}

#[test]
fn full_video_memory_refuses_a_sprite() {
    let mut gb = RustBoy::new();
    let tile = ["$00"; 8];
    let big: Vec<[&str; 8]> = vec![tile; 200];
    assert!(gb.add_sprite("Big", TileSource::from_raw(&big), 0, 0, 0).is_ok());
    let rest: Vec<[&str; 8]> = vec![tile; 57];
    match gb.add_sprite("Rest", TileSource::from_raw(&rest), 0, 0, 0) {
        Err(BuildError::RegionExhausted(region)) => assert_eq!(region, MemoryRegion::Oam),
        _ => panic!("expected the tile indices to be used up"),
    }
    let more: Vec<[&str; 8]> = vec![tile; 55];
    assert!(gb.add_sprite("More", TileSource::from_raw(&more), 0, 0, 0).is_ok());
    let mut other = RustBoy::new();
    assert!(other.tiles.add_sprite("Fill", TileSource::from_raw(&big)).is_some());
    assert!(other.tiles.add_sprite("Fill2", TileSource::from_raw(&more)).is_some());
    let two: Vec<[&str; 8]> = vec![tile; 2];
    match other.add_sprite("Two", TileSource::from_raw(&two), 0, 0, 0) {
        Err(BuildError::RegionExhausted(region)) => assert_eq!(region, MemoryRegion::Vram),
        _ => panic!("expected video memory to be exhausted"),
    }
}

#[test]
fn full_work_memory_refuses_the_build() {
    let mut gb = RustBoy::new();
    for i in 0..4096 {
        let name = format!("w{}", i);
        assert!(gb.vars.create_u16(&name, 0).is_some());
    }
    assert!(gb.vars.create_u8("wOneMore", 0).is_none());
    let coin = gb
        .add_sprite("Coin", TileSource::from_file("coin.2bpp"), 80, 72, 0)
        .unwrap();
    gb.sprites
        .add_animation(coin, "CoinAnim", 0, 6, AnimationType::Loop);
    match gb.build() {
        Err(BuildError::RegionExhausted(region)) => assert_eq!(region, MemoryRegion::Wram),
        _ => panic!("expected work memory to be exhausted"),
    }
    let mut inputs = InputManager::new();
    inputs.on_press(PadButton::A, Vec::new());
    assert!(gb.add_inputs(inputs).is_err());
    assert_eq!(
        BuildError::RegionExhausted(MemoryRegion::Wram).message(),
        "Memory region exhausted: WRAM"
    );
    assert_eq!(
        BuildError::RegionExhausted(MemoryRegion::Vram).message(),
        "Memory region exhausted: VRAM"
    );
}
