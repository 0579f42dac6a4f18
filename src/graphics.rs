//! The state that the rendering side shares with the bus: video RAM and the
//! decoded tile set.

use vstd::prelude::*;

verus! {

pub const VRAM_BEGIN: usize = 0x8000;
pub const VRAM_END: usize = 0x9FFF;
pub const VRAM_SIZE: usize = VRAM_END - VRAM_BEGIN + 1;

/// The number of tiles that video RAM describes.
pub const TILE_COUNT: usize = 384;

/// The colour index of one pixel of a tile.
#[derive(Clone, Copy, Debug, PartialEq, Eq, Structural)]
pub enum TilePixelValue {
    Zero,
    One,
    Two,
    Three,
}

/// Eight rows of eight pixels.
pub type Tile = [[TilePixelValue; 8]; 8];

/// Whether every pixel of `t` is `Zero`.
pub open spec fn is_empty_tile(t: Tile) -> bool {
    forall|i: int, j: int| 0 <= i < 8 && 0 <= j < 8 ==> #[trigger] t[i][j] == TilePixelValue::Zero
}

/// A tile with every pixel `Zero`.
pub fn empty_tile() -> (t: Tile)
    ensures
        is_empty_tile(t),
{
    let row: [TilePixelValue; 8] = [TilePixelValue::Zero; 8];
    let t: Tile = [row; 8];
    assert(forall|j: int| 0 <= j < 8 ==> row[j] == TilePixelValue::Zero);
    assert(forall|i: int| 0 <= i < 8 ==> t[i] == row);
    t
}

/// Video RAM, owned by the bus on behalf of the renderer, and the tile set
/// that the renderer decodes from it.
pub struct GPU {
    pub vram: Vec<u8>,
    pub tile_set: Vec<Tile>,
}

impl GPU {
    /// Video RAM cleared and every tile empty.
    pub fn new() -> (g: GPU)
        ensures
            g.vram@ == Seq::new(VRAM_SIZE as nat, |i: int| 0u8),
            g.tile_set@.len() == TILE_COUNT,
            forall|i: int| 0 <= i < TILE_COUNT ==> is_empty_tile(#[trigger] g.tile_set@[i]),
    {
        let mut vram: Vec<u8> = Vec::new();
        let mut i: usize = 0;
        while i < VRAM_SIZE
            invariant
                i <= VRAM_SIZE,
                vram@ == Seq::new(i as nat, |k: int| 0u8),
            decreases VRAM_SIZE - i,
        {
            vram.push(0);
            i = i + 1;
            assert(vram@ =~= Seq::new(i as nat, |k: int| 0u8));
        }
        let mut tile_set: Vec<Tile> = Vec::new();
        let mut n: usize = 0;
        while n < TILE_COUNT
            invariant
                n <= TILE_COUNT,
                tile_set@.len() == n,
                forall|k: int| 0 <= k < n ==> is_empty_tile(#[trigger] tile_set@[k]),
            decreases TILE_COUNT - n,
        {
            tile_set.push(empty_tile());
            n = n + 1;
        }
        GPU { vram, tile_set }
    }
}

} // verus!
