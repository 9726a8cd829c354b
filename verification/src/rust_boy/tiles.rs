//! Tiles in video memory.
//!
//! Sprite tiles are given addresses from `$8000` up to `$8FFF`, background
//! tiles from `$9000` up to `$97FF`, and tile maps stand at `$9800`. Tiles
//! that do not fit their region are refused.

use crate::gb_asm::{Asm, Chunk, Instr, InstrV};
use crate::gb_std::graphics::utility::{cp_in_memory, cp_in_memory_code, row_string, row_text};
use crate::text::{dollar_hex4, dollar_hex4_string, join2};
use vstd::prelude::*;
use vstd::string::StringExecFns;

verus! {

/// The first address of the sprite tiles.
pub const SPRITE_TILES_START: u16 = 0x8000;

/// The first address after the sprite tiles, where the background tiles
/// start.
pub const SPRITE_TILES_END: u16 = 0x9000;

/// The first address after the background tiles, where the tile map stands.
pub const BACKGROUND_TILES_END: u16 = 0x9800;

/// Identifies a set of tiles: sets are numbered from 0 in the order in
/// which they were added.
#[derive(Debug, Clone, Copy, PartialEq, Eq, Hash, Structural)]
pub struct TileId(pub usize);

/// Where the data of a set of tiles comes from.
#[derive(Debug)]
pub enum TileSource {
    /// Tiles written out as eight lines of text each.
    Raw(Vec<[String; 8]>),
    /// A binary file; its size is known to the assembler only.
    File(String),
}

/// What the manager keeps of a set of tiles.
#[derive(Debug)]
pub struct TileData {
    pub name: String,
    pub source: TileSource,
    pub vram_address: u16,
    pub is_sprite: bool,
    pub is_tilemap: bool,
}

/// Gives sets of tiles their addresses and writes their data out.
#[derive(Debug)]
pub struct TileManager {
    tiles: Vec<TileData>,
    next_sprite_addr: u16,
    next_bg_addr: u16,
}

/// The eight lines of a tile as text.
pub open spec fn tile_text(tile: [String; 8]) -> Seq<Seq<char>> {
    Seq::new(8, |j: int| tile@[j]@)
}

/// The lines of tiles as text.
pub open spec fn tiles_text(tiles: Seq<[String; 8]>) -> Seq<Seq<Seq<char>>> {
    Seq::new(tiles.len(), |i: int| tile_text(tiles[i]))
}

/// The lines of tiles, given as string slices, as text.
pub open spec fn slices_text(data: Seq<[&str; 8]>) -> Seq<Seq<Seq<char>>> {
    Seq::new(data.len(), |i: int| Seq::new(8, |j: int| data[i]@[j]@))
}

/// The rows of a tile map in groups of eight: each row is written out as
/// its bytes, and the last group is filled up with empty lines.
pub open spec fn tilemap_text(rows: Seq<[u8; 32]>) -> Seq<Seq<Seq<char>>> {
    Seq::new(
        ((rows.len() + 7) / 8) as nat,
        |c: int|
            Seq::new(
                8,
                |j: int|
                    if c * 8 + j < rows.len() {
                        row_text(rows[c * 8 + j]@, 32)
                    } else {
                        Seq::<char>::empty()
                    },
            ),
    )
}

/// The first `k` lines of a tile as word data.
pub open spec fn word_lines(tile: Seq<Seq<char>>, k: int) -> Seq<InstrV>
    decreases k,
{
    if k <= 0 || k > tile.len() {
        Seq::<InstrV>::empty()
    } else {
        word_lines(tile, k - 1).push(InstrV::Dw { value: tile[k - 1] })
    }
}

/// The first `k` lines of a tile as byte data; empty lines are left out.
pub open spec fn byte_lines(tile: Seq<Seq<char>>, k: int) -> Seq<InstrV>
    decreases k,
{
    if k <= 0 || k > tile.len() {
        Seq::<InstrV>::empty()
    } else if tile[k - 1].len() == 0 {
        byte_lines(tile, k - 1)
    } else {
        byte_lines(tile, k - 1).push(InstrV::Db { values: tile[k - 1] })
    }
}

/// The first `k` tiles as data, words or bytes.
pub open spec fn data_lines(tiles: Seq<Seq<Seq<char>>>, k: int, words: bool) -> Seq<InstrV>
    decreases k,
{
    if k <= 0 || k > tiles.len() {
        Seq::<InstrV>::empty()
    } else if words {
        data_lines(tiles, k - 1, words) + word_lines(tiles[k - 1], tiles[k - 1].len() as int)
    } else {
        data_lines(tiles, k - 1, words) + byte_lines(tiles[k - 1], tiles[k - 1].len() as int)
    }
}

/// A set of tiles between its label and its end label. Tiles are word data
/// or an embedded file; a tile map is byte data, and nothing when its source
/// is a file.
pub open spec fn tile_block(tile: TileData) -> Seq<InstrV> {
    let body = match tile.source {
        TileSource::Raw(data) => data_lines(
            tiles_text(data@),
            data@.len() as int,
            !tile.is_tilemap,
        ),
        TileSource::File(path) => if tile.is_tilemap {
            Seq::<InstrV>::empty()
        } else {
            seq![(InstrV::Incbin { file: path@, offset: None, length: None })]
        },
    };
    (seq![(InstrV::Label { name: tile.name@ })] + body).push(
        InstrV::Label { name: tile.name@ + "End"@ },
    )
}

/// The kind of a set of tiles.
#[derive(Debug, Clone, Copy, PartialEq, Eq, Structural)]
pub enum TileKind {
    Sprite,
    Background,
    Tilemap,
}

impl TileData {
    /// The kind of the set.
    pub open spec fn kind(&self) -> TileKind {
        if self.is_tilemap {
            TileKind::Tilemap
        } else if self.is_sprite {
            TileKind::Sprite
        } else {
            TileKind::Background
        }
    }

    /// The kind of the set.
    pub fn tile_kind(&self) -> (r: TileKind)
        ensures
            r == self.kind(),
    {
        if self.is_tilemap {
            TileKind::Tilemap
        } else if self.is_sprite {
            TileKind::Sprite
        } else {
            TileKind::Background
        }
    }
}

/// The blocks of those of the first `k` sets that are of the given kind.
pub open spec fn blocks_of(tiles: Seq<TileData>, k: int, kind: TileKind) -> Seq<InstrV>
    decreases k,
{
    if k <= 0 || k > tiles.len() {
        Seq::<InstrV>::empty()
    } else if tiles[k - 1].kind() == kind {
        blocks_of(tiles, k - 1, kind) + tile_block(tiles[k - 1])
    } else {
        blocks_of(tiles, k - 1, kind)
    }
}

/// The calls that copy the first `k` sets to their addresses.
pub open spec fn copy_calls(tiles: Seq<TileData>, k: int) -> Seq<InstrV>
    decreases k,
{
    if k <= 0 || k > tiles.len() {
        Seq::<InstrV>::empty()
    } else {
        copy_calls(tiles, k - 1) + cp_in_memory_code(
            tiles[k - 1].name@,
            dollar_hex4(tiles[k - 1].vram_address as nat),
        )
    }
}

impl TileSource {
    /// The number of tiles that are written out; none for a file.
    pub open spec fn count(&self) -> nat {
        match self {
            TileSource::Raw(tiles) => tiles@.len(),
            TileSource::File(_) => 0,
        }
    }

    /// The size in bytes, 16 for each tile, as far as a 16-bit number holds
    /// it.
    pub open spec fn byte_size(&self) -> u16 {
        if self.count() * 16 > u16::MAX {
            u16::MAX
        } else {
            (self.count() * 16) as u16
        }
    }

    /// Tiles written out as eight lines of text each.
    pub fn from_raw(data: &[[&str; 8]]) -> (r: Self)
        ensures
            r is Raw,
            tiles_text(r->Raw_0@) == slices_text(data@),
    {
        let mut converted: Vec<[String; 8]> = Vec::new();
        let n: usize = data.len();
        let mut i: usize = 0;
        while i < n
            invariant
                n == data@.len(),
                i <= n,
                converted.len() == i,
                forall|k: int| 0 <= k < i ==> tile_text(#[trigger] converted@[k]) == slices_text(
                    data@,
                )[k],
            decreases n - i,
        {
            let tile = &data[i];
            let arr: [String; 8] = [
                String::from_str(tile[0]),
                String::from_str(tile[1]),
                String::from_str(tile[2]),
                String::from_str(tile[3]),
                String::from_str(tile[4]),
                String::from_str(tile[5]),
                String::from_str(tile[6]),
                String::from_str(tile[7]),
            ];
            converted.push(arr);
            i = i + 1;
        }
        TileSource::Raw(converted)
    }

    /// A binary file of tile graphics.
    pub fn from_file(path: &str) -> (r: Self)
        ensures
            r is File,
            r->File_0@ == path@,
    {
        TileSource::File(String::from_str(path))
    }

    /// The size in bytes: 16 for each tile that is written out, and 0 for a
    /// file, whose size the assembler finds. A size beyond 65535 is given
    /// as 65535.
    pub fn size_bytes(&self) -> (r: u16)
        ensures
            r == self.byte_size(),
    {
        match self {
            TileSource::Raw(tiles) => {
                if tiles.len() >= 4096 {
                    u16::MAX
                } else {
                    (tiles.len() * 16) as u16
                }
            },
            TileSource::File(_) => 0,
        }
    }

    /// The number of tiles that are written out; none for a file.
    pub fn tile_count(&self) -> (r: usize)
        ensures
            r == self.count(),
    {
        match self {
            TileSource::Raw(tiles) => tiles.len(),
            TileSource::File(_) => 0,
        }
    }
}

/// Appends a tile as word data.
fn emit_words(a: &mut Asm, tile: &[String; 8])
    requires
        old(a)@.current == Chunk::Main,
    ensures
        final(a)@.current == Chunk::Main,
        final(a)@.content(Chunk::Main) == old(a)@.content(Chunk::Main) + word_lines(
            tile_text(*tile),
            8,
        ),
{
    let ghost before = a@.content(Chunk::Main);
    let ghost lines = tile_text(*tile);
    let mut j: usize = 0;
    while j < 8
        invariant
            j <= 8,
            lines == tile_text(*tile),
            a@.current == Chunk::Main,
            a@.content(Chunk::Main) == before + word_lines(lines, j as int),
        decreases 8 - j,
    {
        a.dw(tile[j].as_str());
        j = j + 1;
    }
}

/// Appends a tile as byte data, leaving empty lines out.
fn emit_bytes(a: &mut Asm, tile: &[String; 8])
    requires
        old(a)@.current == Chunk::Main,
    ensures
        final(a)@.current == Chunk::Main,
        final(a)@.content(Chunk::Main) == old(a)@.content(Chunk::Main) + byte_lines(
            tile_text(*tile),
            8,
        ),
{
    let ghost before = a@.content(Chunk::Main);
    let ghost lines = tile_text(*tile);
    let mut j: usize = 0;
    while j < 8
        invariant
            j <= 8,
            lines == tile_text(*tile),
            a@.current == Chunk::Main,
            a@.content(Chunk::Main) == before + byte_lines(lines, j as int),
        decreases 8 - j,
    {
        if !tile[j].as_str().is_empty() {
            a.db(tile[j].as_str());
        }
        j = j + 1;
    }
}

/// Appends a set of tiles between its label and its end label.
fn emit_block(a: &mut Asm, tile: &TileData)
    requires
        old(a)@.current == Chunk::Main,
    ensures
        final(a)@.current == Chunk::Main,
        final(a)@.content(Chunk::Main) == old(a)@.content(Chunk::Main) + tile_block(*tile),
{
    let ghost before = a@.content(Chunk::Main);
    let words = !tile.is_tilemap;
    a.label(tile.name.as_str());
    let ghost head = before.push(InstrV::Label { name: tile.name@ });
    match &tile.source {
        TileSource::Raw(data) => {
            let ghost text = tiles_text(data@);
            let n: usize = data.len();
            let mut i: usize = 0;
            while i < n
                invariant
                    n == data.len(),
                    i <= n,
                    text == tiles_text(data@),
                    a@.current == Chunk::Main,
                    a@.content(Chunk::Main) == head + data_lines(text, i as int, words),
                decreases n - i,
            {
                if words {
                    emit_words(a, &data[i]);
                } else {
                    emit_bytes(a, &data[i]);
                }
                i = i + 1;
            }
        },
        TileSource::File(path) => {
            if words {
                a.incbin(path.as_str());
            }
        },
    }
    let end = join2(tile.name.as_str(), "End");
    a.label(end.as_str());
}

/// One row of a tile map as text, or nothing where the map has no such row.
fn row_or_empty(tilemap: &[[u8; 32]], i: usize) -> (r: String)
    ensures
        r@ == if i < tilemap@.len() {
            row_text(tilemap@[i as int]@, 32)
        } else {
            Seq::<char>::empty()
        },
{
    if i < tilemap.len() {
        row_string(&tilemap[i])
    } else {
        String::new()
    }
}

impl TileManager {
    /// The sets of tiles, in the order in which they were added.
    pub closed spec fn tiles(&self) -> Seq<TileData> {
        self.tiles@
    }

    /// The address that the next sprite tiles are given.
    pub closed spec fn next_sprite(&self) -> u16 {
        self.next_sprite_addr
    }

    /// The address that the next background tiles are given.
    pub closed spec fn next_background(&self) -> u16 {
        self.next_bg_addr
    }

    /// That `self` is `before` with one more set of tiles, which has the
    /// given name, source, address and kind.
    pub open spec fn extended(
        &self,
        before: &Self,
        name: Seq<char>,
        source: TileSource,
        address: u16,
        kind: TileKind,
    ) -> bool {
        let count = before.tiles().len() as int;
        &&& self.tiles().len() == count + 1
        &&& self.tiles().take(count) == before.tiles()
        &&& self.tiles()[count].name@ == name
        &&& self.tiles()[count].source == source
        &&& self.tiles()[count].vram_address == address
        &&& self.tiles()[count].kind() == kind
    }

    /// A manager without tiles.
    pub fn new() -> (r: Self)
        ensures
            r.tiles() == Seq::<TileData>::empty(),
            r.next_sprite() == SPRITE_TILES_START,
            r.next_background() == SPRITE_TILES_END,
    {
        Self {
            tiles: Vec::new(),
            next_sprite_addr: SPRITE_TILES_START,
            next_bg_addr: SPRITE_TILES_END,
        }
    }

    /// Adds sprite tiles at the next free address from `$8000`. Returns
    /// `None`, and changes nothing, when they do not fit below `$9000`.
    pub fn add_sprite(&mut self, name: &str, source: TileSource) -> (r: Option<TileId>)
        ensures
            old(self).next_sprite() + source.byte_size() <= SPRITE_TILES_END ==> {
                &&& r is Some
                &&& r.unwrap().0 == old(self).tiles().len()
                &&& final(self).extended(
                    old(self),
                    name@,
                    source,
                    old(self).next_sprite(),
                    TileKind::Sprite,
                )
                &&& final(self).next_sprite() == old(self).next_sprite() + source.byte_size()
                &&& final(self).next_background() == old(self).next_background()
            },
            old(self).next_sprite() + source.byte_size() > SPRITE_TILES_END ==> r is None
                && *final(self) == *old(self),
    {
        let size: u16 = source.size_bytes();
        let addr: u16 = self.next_sprite_addr;
        if addr > SPRITE_TILES_END || size > SPRITE_TILES_END - addr {
            return None;
        }
        self.next_sprite_addr = addr + size;
        let id = TileId(self.tiles.len());
        self.tiles.push(
            TileData {
                name: String::from_str(name),
                source,
                vram_address: addr,
                is_sprite: true,
                is_tilemap: false,
            },
        );
        assert(self.tiles().take(old(self).tiles().len() as int) =~= old(self).tiles());
        Some(id)
    }

    /// Adds background tiles at the next free address from `$9000`. Returns
    /// `None`, and changes nothing, when they do not fit below `$9800`.
    pub fn add_background(&mut self, name: &str, source: TileSource) -> (r: Option<TileId>)
        ensures
            old(self).next_background() + source.byte_size() <= BACKGROUND_TILES_END ==> {
                &&& r is Some
                &&& r.unwrap().0 == old(self).tiles().len()
                &&& final(self).extended(
                    old(self),
                    name@,
                    source,
                    old(self).next_background(),
                    TileKind::Background,
                )
                &&& final(self).next_background() == old(self).next_background()
                    + source.byte_size()
                &&& final(self).next_sprite() == old(self).next_sprite()
            },
            old(self).next_background() + source.byte_size() > BACKGROUND_TILES_END ==> r is None
                && *final(self) == *old(self),
    {
        let size: u16 = source.size_bytes();
        let addr: u16 = self.next_bg_addr;
        if addr > BACKGROUND_TILES_END || size > BACKGROUND_TILES_END - addr {
            return None;
        }
        self.next_bg_addr = addr + size;
        let id = TileId(self.tiles.len());
        self.tiles.push(
            TileData {
                name: String::from_str(name),
                source,
                vram_address: addr,
                is_sprite: false,
                is_tilemap: false,
            },
        );
        assert(self.tiles().take(old(self).tiles().len() as int) =~= old(self).tiles());
        Some(id)
    }

    /// Adds a tile map, which stands at `$9800`. Its rows are kept as text
    /// in groups of eight.
    pub fn add_tilemap(&mut self, name: &str, tilemap: &[[u8; 32]]) -> (r: TileId)
        ensures
            r.0 == old(self).tiles().len(),
            final(self).tiles().len() == old(self).tiles().len() + 1,
            final(self).tiles().take(old(self).tiles().len() as int) == old(self).tiles(),
            final(self).tiles().last().name@ == name@,
            final(self).tiles().last().vram_address == BACKGROUND_TILES_END,
            final(self).tiles().last().kind() == TileKind::Tilemap,
            final(self).tiles().last().source is Raw,
            tiles_text(final(self).tiles().last().source->Raw_0@) == tilemap_text(tilemap@),
            final(self).next_sprite() == old(self).next_sprite(),
            final(self).next_background() == old(self).next_background(),
    {
        let id = TileId(self.tiles.len());
        let n: usize = tilemap.len();
        let groups: usize = n / 8 + if n % 8 == 0 {
            0
        } else {
            1
        };
        let mut converted: Vec<[String; 8]> = Vec::new();
        let mut c: usize = 0;
        while c < groups
            invariant
                n == tilemap@.len(),
                groups == (n + 7) / 8,
                c <= groups,
                converted.len() == c,
                forall|k: int| 0 <= k < c ==> tile_text(#[trigger] converted@[k]) == tilemap_text(
                    tilemap@,
                )[k],
            decreases groups - c,
        {
            let base: usize = c * 8;
            let arr: [String; 8] = [
                row_or_empty(tilemap, base),
                row_or_empty(tilemap, base + 1),
                row_or_empty(tilemap, base + 2),
                row_or_empty(tilemap, base + 3),
                row_or_empty(tilemap, base + 4),
                row_or_empty(tilemap, base + 5),
                row_or_empty(tilemap, base + 6),
                row_or_empty(tilemap, base + 7),
            ];
            converted.push(arr);
            c = c + 1;
        }
        self.tiles.push(
            TileData {
                name: String::from_str(name),
                source: TileSource::Raw(converted),
                vram_address: BACKGROUND_TILES_END,
                is_sprite: false,
                is_tilemap: true,
            },
        );
        id
    }

    /// The address of a set of tiles.
    pub fn get_address(&self, id: TileId) -> (r: Option<u16>)
        ensures
            r is Some <==> id.0 < self.tiles().len(),
            r is Some ==> r->0 == self.tiles()[id.0 as int].vram_address,
    {
        if id.0 < self.tiles.len() {
            Some(self.tiles[id.0].vram_address)
        } else {
            None
        }
    }

    /// The label of a set of tiles.
    pub fn get_label(&self, id: TileId) -> (r: Option<&str>)
        ensures
            r is Some <==> id.0 < self.tiles().len(),
            r is Some ==> r->0@ == self.tiles()[id.0 as int].name@,
    {
        if id.0 < self.tiles.len() {
            Some(self.tiles[id.0].name.as_str())
        } else {
            None
        }
    }

    /// The blocks of the sets of one kind, in the order in which they were
    /// added.
    fn generate_blocks(&self, kind: TileKind) -> (r: Vec<Instr>)
        ensures
            r.deep_view() == blocks_of(self.tiles(), self.tiles().len() as int, kind),
    {
        let ghost tiles = self.tiles();
        let mut a = Asm::new();
        let n: usize = self.tiles.len();
        let mut i: usize = 0;
        while i < n
            invariant
                n == self.tiles.len(),
                i <= n,
                tiles == self.tiles(),
                a@.current == Chunk::Main,
                a@.content(Chunk::Main) == blocks_of(tiles, i as int, kind),
            decreases n - i,
        {
            if self.tiles[i].tile_kind() == kind {
                emit_block(&mut a, &self.tiles[i]);
            }
            i = i + 1;
        }
        a.get_main_instrs()
    }

    /// The data of the tiles: the sprite tiles first, then the background
    /// tiles.
    pub fn generate_tile_data(&self) -> (r: Vec<Instr>)
        ensures
            r.deep_view() == blocks_of(self.tiles(), self.tiles().len() as int, TileKind::Sprite)
                + blocks_of(self.tiles(), self.tiles().len() as int, TileKind::Background),
    {
        let mut out = self.generate_blocks(TileKind::Sprite);
        let mut rest = self.generate_blocks(TileKind::Background);
        out.append(&mut rest);
        out
    }

    /// The data of the tile maps.
    pub fn generate_tilemap_data(&self) -> (r: Vec<Instr>)
        ensures
            r.deep_view() == blocks_of(self.tiles(), self.tiles().len() as int, TileKind::Tilemap),
    {
        self.generate_blocks(TileKind::Tilemap)
    }

    /// For every set, the call of `Memcopy` that copies it to its address.
    pub fn generate_memcopy_calls(&self) -> (r: Vec<Instr>)
        ensures
            r.deep_view() == copy_calls(self.tiles(), self.tiles().len() as int),
    {
        let ghost tiles = self.tiles();
        let mut a = Asm::new();
        let n: usize = self.tiles.len();
        let mut i: usize = 0;
        while i < n
            invariant
                n == self.tiles.len(),
                i <= n,
                tiles == self.tiles(),
                a@.current == Chunk::Main,
                a@.content(Chunk::Main) == copy_calls(tiles, i as int),
            decreases n - i,
        {
            let dest = dollar_hex4_string(self.tiles[i].vram_address);
            a.emit_all(cp_in_memory(self.tiles[i].name.as_str(), dest.as_str()));
            i = i + 1;
        }
        a.get_main_instrs()
    }

    /// Whether no tiles were added.
    pub fn is_empty(&self) -> (r: bool)
        ensures
            r == (self.tiles().len() == 0),
    {
        self.tiles.is_empty()
    }
}

} // verus!
