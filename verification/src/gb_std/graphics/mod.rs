//! Tiles, tile maps and sprites.

pub mod sprites;
pub mod tile_ref;
pub mod utility;

use crate::gb_asm::Instr;
use vstd::prelude::*;

verus! {

/// Ten tiles under a label; see [`utility::add_tiles`], which this function
/// calls with the arguments in the other order.
pub fn add_tiles(tiles: [[&str; 8]; 10], label: &str) -> (r: Vec<Instr>)
    ensures
        r.deep_view() == utility::labelled(label@, utility::tiles_lines(tiles@, 10)),
{
    utility::add_tiles(label, tiles)
}

} // verus!
