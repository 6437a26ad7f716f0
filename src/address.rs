use vstd::arithmetic::power2::{lemma2_to64, lemma2_to64_rest, lemma_pow2_pos, lemma_pow2_strictly_increases, pow2};
use vstd::bits::lemma_u64_shl_is_mul;
use vstd::prelude::*;

verus! {

/// Largest zoom level whose grid size, `2^zoom`, fits the 64-bit row arithmetic.
pub const MAX_ZOOM: u32 = 62;

/// A tile in the XYZ scheme: row 0 is the northernmost row of the grid.
///
/// Well-formed requests have `0 <= x < 2^zoom` and `0 <= y < 2^zoom`, but
/// other values are accepted: they simply find nothing in storage.
#[derive(Debug, Clone, Copy, PartialEq, Eq, Structural)]
pub struct TileAddress {
    pub zoom: u32,
    pub x: i32,
    pub y: i32,
}

/// The bound parameters of the point lookup: the address with its row
/// re-expressed in the TMS convention that storage uses.
#[derive(Debug, Clone, Copy, PartialEq, Eq, Structural)]
pub struct TileKey {
    pub zoom_level: i64,
    pub tile_column: i64,
    pub tile_row: i64,
}

/// Number of rows (and columns) of the grid at a zoom level.
pub open spec fn grid_size(zoom: nat) -> int {
    pow2(zoom) as int
}

/// The TMS row of XYZ row `y`: the vertical mirror of `y` in the grid.
pub open spec fn storage_row(zoom: nat, y: int) -> int {
    grid_size(zoom) - 1 - y
}

/// The key under which storage files the tile at `a`.
pub open spec fn key_of(a: TileAddress) -> TileKey {
    TileKey {
        zoom_level: a.zoom as i64,
        tile_column: a.x as i64,
        tile_row: storage_row(a.zoom as nat, a.y as int) as i64,
    }
}

/// The grid size at the largest zoom level fits comfortably in an `i64`.
proof fn lemma_grid_size_bound(zoom: nat)
    requires
        zoom <= MAX_ZOOM,
    ensures
        1 <= grid_size(zoom) <= 0x4000_0000_0000_0000,
{
    lemma_pow2_pos(zoom);
    lemma2_to64();
    lemma2_to64_rest();
    if zoom < 62 {
        lemma_pow2_strictly_increases(zoom, 62);
    }
}

/// Converts XYZ row `y` at `zoom` to the TMS row persisted in storage,
/// `2^zoom - 1 - y`. Rows outside the grid are mirrored all the same.
pub fn to_storage_row(zoom: u32, y: i32) -> (r: i64)
    requires
        zoom <= MAX_ZOOM,
    ensures
        r == storage_row(zoom as nat, y as int),
{
    proof {
        lemma_grid_size_bound(zoom as nat);
        lemma_u64_shl_is_mul(1, zoom as u64);
    }
    let ymax: u64 = 1u64 << (zoom as u64);
    ymax as i64 - 1 - y as i64
}

/// The lookup key of an address: zoom and column as they are, the row flipped.
pub fn lookup_key(address: &TileAddress) -> (k: TileKey)
    requires
        address.zoom <= MAX_ZOOM,
    ensures
        k == key_of(*address),
{
    let row = to_storage_row(address.zoom, address.y);
    TileKey { zoom_level: address.zoom as i64, tile_column: address.x as i64, tile_row: row }
}

/// Flipping a row of the grid twice gives the row back: the XYZ to TMS
/// conversion is its own inverse.
pub proof fn storage_row_is_involution(zoom: nat, y: int)
    requires
        zoom <= 20,
        0 <= y < grid_size(zoom),
    ensures
        storage_row(zoom, storage_row(zoom, y)) == y,
{
}

/// A row inside the grid is flipped to a row inside the grid.
pub proof fn storage_row_in_grid(zoom: nat, y: int)
    requires
        0 <= y < grid_size(zoom),
    ensures
        0 <= storage_row(zoom, y) < grid_size(zoom),
{
}

} // verus!
