use rust_boy::gb_asm::Instr;
use rust_boy::gb_std::graphics::tile_ref::TileRef;
use rust_boy::gb_std::graphics::utility::{
    add_tilemap, add_tiles, add_tiles_2bpp, add_tiles_tilemap, cp_in_memory, memcopy,
    turn_off_screen, wait_vblank,
};
use rust_boy::rust_boy::{TileId, TileManager, TileSource};

fn lines(code: &Vec<Instr>) -> Vec<String> {
    code.iter().map(|i| i.to_string()).collect()
}

#[test]
fn test_sprite_allocation() {
    let mut tm = TileManager::new();

    // Add a sprite with 1 tile (16 bytes)
    let paddle_data: [[&str; 8]; 1] = [["$FF", "$00", "$FF", "$00", "$FF", "$00", "$FF", "$00"]];
    let id = tm
        .add_sprite("Paddle", TileSource::from_raw(&paddle_data))
        .unwrap();

    assert_eq!(tm.get_address(id), Some(0x8000));
    assert_eq!(tm.get_label(id), Some("Paddle"));
}

#[test]
fn test_background_allocation() {
    let mut tm = TileManager::new();

    let tiles_data: [[&str; 8]; 1] = [["$00", "$00", "$00", "$00", "$00", "$00", "$00", "$00"]];
    let id = tm
        .add_background("Tiles", TileSource::from_raw(&tiles_data))
        .unwrap();

    assert_eq!(tm.get_address(id), Some(0x9000));
}

#[test]
fn addresses_rise_by_sixteen_bytes_a_tile() {
    let mut tm = TileManager::new();
    assert!(tm.is_empty());
    let tile = ["$00"; 8];
    let three: Vec<[&str; 8]> = vec![tile; 3];
    let a = tm.add_sprite("A", TileSource::from_raw(&three)).unwrap();
    let b = tm.add_sprite("B", TileSource::from_file("b.2bpp")).unwrap();
    let c = tm.add_sprite("C", TileSource::from_raw(&three)).unwrap();
    let d = tm.add_background("D", TileSource::from_raw(&three)).unwrap();
    let e = tm.add_background("E", TileSource::from_raw(&three)).unwrap();
    assert_eq!(tm.get_address(a), Some(0x8000));
    assert_eq!(tm.get_address(b), Some(0x8030));
    assert_eq!(tm.get_address(c), Some(0x8030));
    assert_eq!(tm.get_address(d), Some(0x9000));
    assert_eq!(tm.get_address(e), Some(0x9030));
    assert_eq!(tm.get_label(e), Some("E"));
    assert_eq!(tm.get_address(TileId(5)), None);
    assert_eq!(tm.get_label(TileId(5)), None);
    assert!(!tm.is_empty());
    assert_eq!(TileSource::from_raw(&three).size_bytes(), 48);
    assert_eq!(TileSource::from_raw(&three).tile_count(), 3);
    assert_eq!(TileSource::from_file("b.2bpp").size_bytes(), 0);
    assert_eq!(TileSource::from_file("b.2bpp").tile_count(), 0);
}

#[test]
fn a_full_region_refuses_tiles() {
    let mut tm = TileManager::new();
    let tile = ["$00"; 8];
    let full: Vec<[&str; 8]> = vec![tile; 256];
    let one: Vec<[&str; 8]> = vec![tile; 1];
    let half: Vec<[&str; 8]> = vec![tile; 128];
    assert!(tm.add_sprite("Full", TileSource::from_raw(&full)).is_some());
    assert!(tm.add_sprite("One", TileSource::from_raw(&one)).is_none());
    assert!(tm.add_sprite("File", TileSource::from_file("f")).is_some());
    assert!(tm.add_background("Half", TileSource::from_raw(&half)).is_some());
    assert!(tm.add_background("One", TileSource::from_raw(&one)).is_none());
    let huge: Vec<[&str; 8]> = vec![tile; 5000];
    assert_eq!(TileSource::from_raw(&huge).size_bytes(), 65535);
    assert!(TileManager::new()
        .add_sprite("Huge", TileSource::from_raw(&huge))
        .is_none());
}

#[test]
fn tile_data_comes_sprites_first() {
    let mut tm = TileManager::new();
    let bg: [[&str; 8]; 1] = [["b0", "b1", "b2", "b3", "b4", "b5", "b6", "b7"]];
    let sp: [[&str; 8]; 1] = [["s0", "s1", "s2", "s3", "s4", "s5", "s6", "s7"]];
    tm.add_background("Tiles", TileSource::from_raw(&bg)).unwrap();
    tm.add_sprite("Paddle", TileSource::from_raw(&sp)).unwrap();
    tm.add_sprite("Ball", TileSource::from_file("ball.2bpp")).unwrap();
    let map: [[u8; 32]; 1] = [[0x1F; 32]];
    let map_id = tm.add_tilemap("Map", &map);
    assert_eq!(tm.get_address(map_id), Some(0x9800));
    assert_eq!(
        lines(&tm.generate_tile_data()),
        vec![
            "Paddle:", "dw s0", "dw s1", "dw s2", "dw s3", "dw s4", "dw s5", "dw s6", "dw s7",
            "PaddleEnd:", "Ball:", "INCBIN \"ball.2bpp\"", "BallEnd:", "Tiles:", "dw b0",
            "dw b1", "dw b2", "dw b3", "dw b4", "dw b5", "dw b6", "dw b7", "TilesEnd:",
        ]
    );
    let row = vec!["$1F"; 32].join(", ");
    assert_eq!(
        lines(&tm.generate_tilemap_data()),
        vec!["Map:".to_string(), format!("db {}", row), "MapEnd:".to_string()]
    );
    assert_eq!(
        lines(&tm.generate_memcopy_calls()),
        vec![
            "ld de, Tiles",
            "ld hl, $9000",
            "ld bc, TilesEnd - Tiles",
            "call Memcopy",
            "ld de, Paddle",
            "ld hl, $8000",
            "ld bc, PaddleEnd - Paddle",
            "call Memcopy",
            "ld de, Ball",
            "ld hl, $8010",
            "ld bc, BallEnd - Ball",
            "call Memcopy",
            "ld de, Map",
            "ld hl, $9800",
            "ld bc, MapEnd - Map",
            "call Memcopy",
        ]
    );
}

#[test]
fn a_tile_map_of_nine_rows_has_nine_lines() {
    let mut tm = TileManager::new();
    let mut map = [[0u8; 32]; 9];
    map[8][31] = 0xAB;
    tm.add_tilemap("Map", &map);
    let code = lines(&tm.generate_tilemap_data());
    assert_eq!(code.len(), 11);
    assert!(code[1].starts_with("db $00, $00"));
    assert!(code[9].ends_with("$00, $AB"));
    assert_eq!(code[10], "MapEnd:");
}

#[test]
fn tile_helpers_write_labelled_data() {
    let tiles: [[&str; 8]; 10] = [["`0", "`1", "`2", "`3", "`4", "`5", "`6", "`7"]; 10];
    let code = lines(&add_tiles("Tiles", tiles));
    assert_eq!(code.len(), 82);
    assert_eq!(code[0], "Tiles:");
    assert_eq!(code[1], "dw `0");
    assert_eq!(code[8], "dw `7");
    assert_eq!(code[9], "dw `0");
    assert_eq!(code[81], "TilesEnd:");
    assert_eq!(
        lines(&rust_boy::gb_std::graphics::add_tiles(tiles, "Tiles")),
        code
    );
    assert_eq!(
        lines(&add_tiles_2bpp("Logo", "logo.2bpp")),
        vec!["Logo:", "INCBIN \"logo.2bpp\"", "LogoEnd:"]
    );
    assert_eq!(
        lines(&add_tiles_tilemap("Map", "map.bin")),
        vec!["Map:", "INCBIN \"map.bin\"", "MapEnd:"]
    );
    let mut row = [0u8; 32];
    row[0] = 0x0A;
    row[31] = 0xF0;
    let map = lines(&add_tilemap("Map", &[row]));
    assert_eq!(map.len(), 3);
    assert!(map[1].starts_with("db $0A, $00, "));
    assert!(map[1].ends_with(", $00, $F0"));
    assert_eq!(map[1].len(), 3 + 32 * 3 + 31 * 2);
    assert_eq!(lines(&add_tilemap("Map", &[])), vec!["Map:", "MapEnd:"]);
    assert_eq!(
        lines(&cp_in_memory("Tiles", "$9000")),
        vec!["ld de, Tiles", "ld hl, $9000", "ld bc, TilesEnd - Tiles", "call Memcopy"]
    );
    assert_eq!(lines(&turn_off_screen()), vec!["ld a, 0", "ld [rLCDC], a"]);
    assert_eq!(
        lines(&wait_vblank()),
        vec!["WaitVBlank:", "ld a, [rLY]", "cp 144", "jp c, WaitVBlank"]
    );
    let copy = lines(&memcopy());
    assert_eq!(copy.len(), 13);
    assert_eq!(copy[4], "Memcopy:");
    assert_eq!(copy[5], "ld a, [de]");
    assert_eq!(copy[6], "ld [hli], a");
    assert_eq!(copy[11], "jp nz, Memcopy");
}

#[test]
fn tile_refs_address_the_map() {
    assert_eq!(TileRef::new(0x9800).tilemap_addr, 0x9800);
    assert_eq!(TileRef::from_coords(31, 31, 0x9C00).tilemap_addr, 0x9C00 + 31 * 32 + 31);
    assert_eq!(TileRef::from_xy(255, 255).tilemap_addr, 0x9800 + 255 * 32 + 255);
    let at = TileRef::from_xy(5, 3);
    assert_eq!(lines(&at.load_address()), vec!["ld hl, 39013"]);
    assert_eq!(
        lines(&at.set_tile_at(7)),
        vec!["ld hl, 39013", "ld a, 7", "ld [hl], a"]
    );
    assert_eq!(lines(&TileRef::load_address_label("Here")), vec!["ld hl, Here"]);
    assert_eq!(lines(&TileRef::set_tile(9)), vec!["ld a, 9", "ld [hl], a"]);
    assert_eq!(lines(&TileRef::set_tile_label("BLANK")), vec!["ld [hl], BLANK"]);
    assert_eq!(lines(&TileRef::next_tile()), vec!["inc hl"]);
    assert_eq!(lines(&TileRef::prev_tile()), vec!["dec hl"]);
    assert_eq!(lines(&TileRef::get_tile()), vec!["ld a, [hl]"]);
    assert_eq!(lines(&TileRef::set_tile_and_next(9)), vec!["ld a, 9", "ld [hli], a"]);
    assert_eq!(lines(&TileRef::next_row()), vec!["ld de, 32", "add hl, de"]);
    assert_eq!(lines(&TileRef::prev_row()), vec!["ld de, 65504", "add hl, de"]);
}
