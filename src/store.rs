use crate::address::{key_of, lookup_key, TileAddress, TileKey, MAX_ZOOM};
use vstd::prelude::*;

verus! {

/// One persisted tile: its TMS coordinates and its encoded image bytes.
#[derive(Debug, Clone, PartialEq, Eq)]
pub struct Tile {
    pub zoom_level: i32,
    pub tile_column: i32,
    pub tile_row: i32,
    pub tile_data: Vec<u8>,
}

/// The queries that the tile store answers.
#[derive(Debug, Clone, Copy, PartialEq, Eq)]
pub enum Queries {
    GetTile { address: TileAddress },
}

/// Why a tile could not be resolved: no connection could be had, or the
/// query failed for a reason other than finding no row.
#[derive(Debug, Clone, Copy, PartialEq, Eq, Structural)]
pub enum StoreError {
    StorageUnavailable,
}

/// What the point lookup found: the stored tile, or no row at all.
#[derive(Debug, Clone, PartialEq, Eq)]
pub enum Lookup {
    Found(Tile),
    Missing,
}

/// How a tile request is answered: with the stored tile, or with a
/// placeholder image to be drawn for the address.
#[derive(Debug, Clone, PartialEq, Eq)]
pub enum Resolved {
    Stored(Tile),
    Placeholder(TileAddress),
}

/// Whether `t` is the row that the lookup for `k` selects.
pub open spec fn stored_under(t: Tile, k: TileKey) -> bool {
    &&& t.zoom_level as int == k.zoom_level as int
    &&& t.tile_column as int == k.tile_column as int
    &&& t.tile_row as int == k.tile_row as int
}

/// `a` and `b` hold the same coordinates and the same image bytes.
pub open spec fn same_tile(a: Tile, b: Tile) -> bool {
    &&& a.zoom_level == b.zoom_level
    &&& a.tile_column == b.tile_column
    &&& a.tile_row == b.tile_row
    &&& a.tile_data@ == b.tile_data@
}

/// `i` is the first position of `records` that is stored under `k`.
pub open spec fn first_stored_under(records: Seq<Tile>, k: TileKey, i: int) -> bool {
    &&& 0 <= i < records.len()
    &&& stored_under(records[i], k)
    &&& forall|j: int| 0 <= j < i ==> !stored_under(#[trigger] records[j], k)
}

/// `r` is the outcome of looking `k` up in the snapshot `records`.
pub open spec fn lookup_in(records: Seq<Tile>, k: TileKey, r: Lookup) -> bool {
    match r {
        Lookup::Found(t) => exists|i: int| first_stored_under(records, k, i) && same_tile(t, records[i]),
        Lookup::Missing => forall|i: int|
            0 <= i < records.len() ==> !stored_under(#[trigger] records[i], k),
    }
}

impl Queries {
    /// The key that answering this query looks up.
    pub fn lookup_key(&self) -> (k: TileKey)
        requires
            *self matches Queries::GetTile { address } && address.zoom <= MAX_ZOOM,
        ensures
            *self matches Queries::GetTile { address } && k == key_of(address),
    {
        match self {
            Queries::GetTile { address } => lookup_key(address),
        }
    }
}

/// Point lookup of `key` in a snapshot of the stored rows. The storage
/// schema keeps keys unique; should two rows share one, the first is taken.
pub fn find_tile(records: &Vec<Tile>, key: &TileKey) -> (r: Lookup)
    ensures
        lookup_in(records@, *key, r),
{
    let mut i: usize = 0;
    while i < records.len()
        invariant
            0 <= i <= records@.len(),
            forall|j: int| 0 <= j < i ==> !stored_under(#[trigger] records@[j], *key),
        decreases records@.len() - i,
    {
        let hit = records[i].zoom_level as i64 == key.zoom_level && records[i].tile_column as i64
            == key.tile_column && records[i].tile_row as i64 == key.tile_row;
        if hit {
            let row = &records[i];
            let t = Tile {
                zoom_level: row.zoom_level,
                tile_column: row.tile_column,
                tile_row: row.tile_row,
                tile_data: row.tile_data.clone(),
            };
            assert(first_stored_under(records@, *key, i as int));
            assert(same_tile(t, records@[i as int]));
            return Lookup::Found(t);
        }
        i = i + 1;
    }
    Lookup::Missing
}

/// Decides how a request for `address` is answered from what the lookup
/// returned: a stored tile is handed out as it is, a missing row asks for a
/// placeholder, and a storage failure is passed on.
pub fn resolve(address: TileAddress, fetched: Result<Lookup, StoreError>) -> (r: Result<
    Resolved,
    StoreError,
>)
    ensures
        fetched matches Ok(Lookup::Found(t)) ==> r == Ok::<Resolved, StoreError>(
            Resolved::Stored(t),
        ),
        fetched matches Ok(Lookup::Missing) ==> r == Ok::<Resolved, StoreError>(
            Resolved::Placeholder(address),
        ),
        fetched matches Err(e) ==> r == Err::<Resolved, StoreError>(e),
{
    match fetched {
        Ok(Lookup::Found(t)) => Ok(Resolved::Stored(t)),
        Ok(Lookup::Missing) => Ok(Resolved::Placeholder(address)),
        Err(e) => Err(e),
    }
}

/// The tile that answers a miss: the request's own XYZ coordinates with the
/// placeholder image drawn for them.
pub fn placeholder_tile(address: TileAddress, data: Vec<u8>) -> (t: Tile)
    ensures
        t.zoom_level == address.zoom as i32,
        t.tile_column == address.x,
        t.tile_row == address.y,
        t.tile_data@ == data@,
{
    Tile { zoom_level: address.zoom as i32, tile_column: address.x, tile_row: address.y, tile_data: data }
}

/// Looking a key up in a fixed snapshot has one outcome: two lookups of the
/// same key in the same rows agree, down to every byte of the tile found.
pub proof fn lookup_is_deterministic(records: Seq<Tile>, k: TileKey, r1: Lookup, r2: Lookup)
    requires
        lookup_in(records, k, r1),
        lookup_in(records, k, r2),
    ensures
        r1 is Missing <==> r2 is Missing,
        r1 matches Lookup::Found(t1) ==> (r2 matches Lookup::Found(t2) && same_tile(t1, t2)),
{
    match (r1, r2) {
        (Lookup::Found(t1), Lookup::Found(t2)) => {
            let i1 = choose|i: int| first_stored_under(records, k, i) && same_tile(t1, records[i]);
            let i2 = choose|i: int| first_stored_under(records, k, i) && same_tile(t2, records[i]);
            assert(i1 == i2) by {
                if i1 < i2 {
                    assert(!stored_under(records[i1], k));
                } else if i2 < i1 {
                    assert(!stored_under(records[i2], k));
                }
            }
        },
        (Lookup::Found(t1), Lookup::Missing) => {
            let i1 = choose|i: int| first_stored_under(records, k, i) && same_tile(t1, records[i]);
            assert(!stored_under(records[i1], k));
        },
        (Lookup::Missing, Lookup::Found(t2)) => {
            let i2 = choose|i: int| first_stored_under(records, k, i) && same_tile(t2, records[i]);
            assert(!stored_under(records[i2], k));
        },
        (Lookup::Missing, Lookup::Missing) => {},
    }
}

} // verus!
