//! Tile resolution core of a raster map tile server: XYZ to TMS row
//! conversion, the storage lookup and its miss path, and the pixel canvas of
//! the placeholder image drawn for tiles that storage does not hold.
pub mod address;
pub mod canvas;
pub mod store;

pub use address::{lookup_key, to_storage_row, TileAddress, TileKey, MAX_ZOOM};
pub use canvas::{
    blank_canvas, draw_origin_lines, encode_png, origin_canvas, CANVAS_BYTES, LABEL_HEIGHT,
    LABEL_X, LATITUDE_LABEL_Y, LONGITUDE_LABEL_Y, TILE_SIZE,
};
pub use store::{find_tile, placeholder_tile, resolve, Lookup, Queries, Resolved, StoreError, Tile};
