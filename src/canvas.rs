use image::ImageEncoder;
use vstd::prelude::*;

verus! {

/// Width and height, in pixels, of every tile.
pub const TILE_SIZE: u32 = 256;

/// Left edge, in pixels, of the two coordinate labels of a placeholder.
pub const LABEL_X: i32 = 50;

/// Top edge, in pixels, of the latitude label.
pub const LATITUDE_LABEL_Y: i32 = 108;

/// Top edge, in pixels, of the longitude label.
pub const LONGITUDE_LABEL_Y: i32 = 128;

/// Glyph height of the labels; their glyphs are drawn twice as wide.
pub const LABEL_HEIGHT: u32 = 20;

/// Bytes of a tile's RGBA pixel buffer: four channels per pixel, row by row.
pub const CANVAS_BYTES: usize = 262144;

/// Column of the pixel that byte `i` of the buffer belongs to.
pub open spec fn pixel_x(i: int) -> int {
    (i / 4) % 256
}

/// Row of the pixel that byte `i` of the buffer belongs to.
pub open spec fn pixel_y(i: int) -> int {
    (i / 4) / 256
}

/// Whether byte `i` is the alpha channel of its pixel.
pub open spec fn is_alpha(i: int) -> bool {
    i % 4 == 3
}

/// Whether byte `i` lies on the top edge or the left edge of the tile.
pub open spec fn on_origin_line(i: int) -> bool {
    pixel_x(i) == 0 || pixel_y(i) == 0
}

/// Byte `i` of the empty canvas: white, fully transparent.
pub open spec fn blank_byte(i: int) -> u8 {
    if is_alpha(i) {
        0
    } else {
        255
    }
}

/// Byte `i` of the canvas with its origin lines drawn: opaque white on the
/// top and left edges, transparent white elsewhere.
pub open spec fn origin_byte(i: int) -> u8 {
    if is_alpha(i) && !on_origin_line(i) {
        0
    } else {
        255
    }
}

/// `c` is the placeholder canvas with its origin lines and no text.
pub open spec fn is_origin_canvas(c: Seq<u8>) -> bool {
    &&& c.len() == CANVAS_BYTES
    &&& forall|i: int| 0 <= i < CANVAS_BYTES ==> #[trigger] c[i] == origin_byte(i)
}

/// The PNG file that the encoder writes for an 8-bit RGBA pixel buffer of the
/// given dimensions.
pub uninterp spec fn png_rgba_of(width: nat, height: nat, pixels: Seq<u8>) -> Seq<u8>;

/// Relies on image's `PngEncoder::write_image` with `ColorType::Rgba8`, the
/// encoder behind `ImageBuffer::write_to` for PNG: it writes the PNG file of
/// the buffer into `out`, and panics unless the buffer holds exactly four bytes
/// for each pixel. The png encoder beneath it fails only on a zero width or
/// height, an invalid colour type and bit depth (8-bit RGBA is valid), a buffer
/// of the wrong size, or a failed write, which a `Vec` never reports.
#[verifier::external_body]
fn write_png(pixels: &[u8], width: u32, height: u32) -> (r: Option<Vec<u8>>)
    requires
        pixels@.len() == width * height * 4,
    ensures
        width > 0 && height > 0 ==> r is Some,
        r matches Some(b) ==> b@ == png_rgba_of(width as nat, height as nat, pixels@),
{
    let mut out: Vec<u8> = Vec::new();
    let encoder = image::codecs::png::PngEncoder::new(&mut out);
    match encoder.write_image(pixels, width, height, image::ColorType::Rgba8) {
        Ok(()) => Some(out),
        Err(_) => None,
    }
}

/// A tile-sized canvas of white, fully transparent pixels.
pub fn blank_canvas() -> (c: Vec<u8>)
    ensures
        c@.len() == CANVAS_BYTES,
        forall|i: int| 0 <= i < CANVAS_BYTES ==> #[trigger] c@[i] == blank_byte(i),
{
    let mut c: Vec<u8> = Vec::with_capacity(CANVAS_BYTES);
    let mut i: usize = 0;
    while i < CANVAS_BYTES
        invariant
            i <= CANVAS_BYTES,
            c@.len() == i,
            forall|j: int| 0 <= j < i ==> #[trigger] c@[j] == blank_byte(j),
        decreases CANVAS_BYTES - i,
    {
        let b: u8 = if i % 4 == 3 {
            0
        } else {
            255
        };
        c.push(b);
        i = i + 1;
    }
    c
}

/// Draws one-pixel opaque white lines along the top edge, from (0, 0) to
/// (255, 0), and along the left edge, from (0, 0) to (0, 255).
pub fn draw_origin_lines(c: &mut Vec<u8>)
    requires
        old(c)@.len() == CANVAS_BYTES,
    ensures
        final(c)@.len() == CANVAS_BYTES,
        forall|i: int|
            0 <= i < CANVAS_BYTES ==> #[trigger] final(c)@[i] == if on_origin_line(i) {
                255u8
            } else {
                old(c)@[i]
            },
{
    let mut i: usize = 0;
    while i < CANVAS_BYTES
        invariant
            i <= CANVAS_BYTES,
            c@.len() == CANVAS_BYTES,
            forall|j: int|
                0 <= j < i ==> #[trigger] c@[j] == if on_origin_line(j) {
                    255u8
                } else {
                    old(c)@[j]
                },
            forall|j: int| i <= j < CANVAS_BYTES ==> #[trigger] c@[j] == old(c)@[j],
        decreases CANVAS_BYTES - i,
    {
        let p: usize = i / 4;
        if p % 256 == 0 || p / 256 == 0 {
            c[i] = 255;
        }
        i = i + 1;
    }
}

/// The placeholder canvas before any text: transparent, with its top and left
/// edges drawn in opaque white.
pub fn origin_canvas() -> (c: Vec<u8>)
    ensures
        is_origin_canvas(c@),
{
    let mut c = blank_canvas();
    draw_origin_lines(&mut c);
    c
}

/// Encodes a tile's RGBA pixel buffer as a 256 by 256 PNG image.
pub fn encode_png(pixels: &Vec<u8>) -> (r: Vec<u8>)
    requires
        pixels@.len() == CANVAS_BYTES,
    ensures
        r@ == png_rgba_of(256, 256, pixels@),
{
    match write_png(pixels.as_slice(), TILE_SIZE, TILE_SIZE) {
        Some(b) => b,
        None => {
            proof {
                assert(false);
            }
            Vec::new()
        },
    }
}

/// The placeholder canvas does not depend on the tile or on the call: any two
/// canvases that `origin_canvas` may return are byte for byte the same, and so
/// are their PNG encodings.
pub proof fn origin_canvas_is_fixed(c1: Seq<u8>, c2: Seq<u8>)
    requires
        is_origin_canvas(c1),
        is_origin_canvas(c2),
    ensures
        c1 == c2,
        png_rgba_of(256, 256, c1) == png_rgba_of(256, 256, c2),
{
    assert(c1 =~= c2);
}

} // verus!
