use tileserver::{
    find_tile, lookup_key, placeholder_tile, resolve, Lookup, Resolved, StoreError, Tile,
    TileAddress,
};

fn fixture() -> Vec<u8> {
    (0u8..17).map(|b| b.wrapping_mul(37)).collect()
}

fn row(z: i32, c: i32, r: i32, data: Vec<u8>) -> Tile {
    Tile { zoom_level: z, tile_column: c, tile_row: r, tile_data: data }
}

fn stored_rows() -> Vec<Tile> {
    vec![row(0, 0, 0, vec![9, 9]), row(1, 1, 0, fixture()), row(1, 0, 1, vec![1])]
}

#[test]
fn hit_returns_the_stored_bytes_unchanged() {
    let address = TileAddress { zoom: 1, x: 1, y: 1 };
    let key = lookup_key(&address);
    assert_eq!(key.tile_row, 0);
    let found = find_tile(&stored_rows(), &key);
    assert_eq!(found, Lookup::Found(row(1, 1, 0, fixture())));
    match resolve(address, Ok(found)) {
        Ok(Resolved::Stored(t)) => {
            assert_eq!(t.tile_data.len(), 17);
            assert_eq!(t.tile_data, fixture());
        }
        other => panic!("expected the stored tile, got {:?}", other),
    }
}

#[test]
fn empty_storage_asks_for_a_placeholder() {
    let address = TileAddress { zoom: 3, x: 2, y: 5 };
    let found = find_tile(&Vec::new(), &lookup_key(&address));
    assert_eq!(found, Lookup::Missing);
    assert_eq!(resolve(address, Ok(found)), Ok(Resolved::Placeholder(address)));
}

#[test]
fn unflipped_row_is_not_a_hit() {
    let address = TileAddress { zoom: 1, x: 0, y: 0 };
    let found = find_tile(&stored_rows(), &lookup_key(&address));
    assert_eq!(found, Lookup::Found(row(1, 0, 1, vec![1])));
    let address = TileAddress { zoom: 1, x: 1, y: 0 };
    assert_eq!(find_tile(&stored_rows(), &lookup_key(&address)), Lookup::Missing);
}

#[test]
fn first_of_duplicate_rows_is_taken() {
    let rows = vec![row(2, 1, 1, vec![1]), row(2, 1, 1, vec![2])];
    let address = TileAddress { zoom: 2, x: 1, y: 2 };
    assert_eq!(find_tile(&rows, &lookup_key(&address)), Lookup::Found(row(2, 1, 1, vec![1])));
}

#[test]
fn lookup_is_repeatable() {
    let rows = stored_rows();
    let address = TileAddress { zoom: 1, x: 1, y: 1 };
    let a = resolve(address, Ok(find_tile(&rows, &lookup_key(&address))));
    let b = resolve(address, Ok(find_tile(&rows, &lookup_key(&address))));
    assert_eq!(a, b);
}

#[test]
fn storage_failure_is_passed_on() {
    let address = TileAddress { zoom: 1, x: 1, y: 1 };
    assert_eq!(resolve(address, Err(StoreError::StorageUnavailable)), Err(StoreError::StorageUnavailable));
}

#[test]
fn placeholder_tile_keeps_the_request_coordinates() {
    let t = placeholder_tile(TileAddress { zoom: 3, x: 2, y: 5 }, vec![4, 5, 6]);
    assert_eq!(t, row(3, 2, 5, vec![4, 5, 6]));
}
