use rust_boy::gb_std::graphics::tile_ref::TileRef;

#[test]
fn test_tile_ref_from_coords() {
    let tile_ref = TileRef::from_xy(5, 3);
    // y * 32 + x = 3 * 32 + 5 = 101
    // $9800 + 101 = $9865
    assert_eq!(tile_ref.tilemap_addr, 0x9865);
}

#[test]
fn test_tile_ref_from_coords_origin() {
    let tile_ref = TileRef::from_xy(0, 0);
    assert_eq!(tile_ref.tilemap_addr, 0x9800);
}
