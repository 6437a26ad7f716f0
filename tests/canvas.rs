use tileserver::{blank_canvas, draw_origin_lines, encode_png, origin_canvas, CANVAS_BYTES};

fn pixel(c: &[u8], x: usize, y: usize) -> [u8; 4] {
    let i = (y * 256 + x) * 4;
    [c[i], c[i + 1], c[i + 2], c[i + 3]]
}

#[test]
fn blank_canvas_is_transparent_white() {
    let c = blank_canvas();
    assert_eq!(c.len(), CANVAS_BYTES);
    assert_eq!(pixel(&c, 0, 0), [255, 255, 255, 0]);
    assert_eq!(pixel(&c, 255, 255), [255, 255, 255, 0]);
}

#[test]
fn origin_lines_cover_the_top_and_left_edges() {
    let c = origin_canvas();
    assert_eq!(pixel(&c, 0, 0), [255, 255, 255, 255]);
    assert_eq!(pixel(&c, 255, 0), [255, 255, 255, 255]);
    assert_eq!(pixel(&c, 0, 255), [255, 255, 255, 255]);
    assert_eq!(pixel(&c, 1, 1), [255, 255, 255, 0]);
    assert_eq!(pixel(&c, 255, 1), [255, 255, 255, 0]);
    assert_eq!(pixel(&c, 1, 255), [255, 255, 255, 0]);
    let opaque = c.chunks(4).filter(|p| p[3] == 255).count();
    assert_eq!(opaque, 511);
}

#[test]
fn origin_lines_leave_the_interior_alone() {
    let mut c = vec![7u8; CANVAS_BYTES];
    draw_origin_lines(&mut c);
    assert_eq!(pixel(&c, 0, 3), [255, 255, 255, 255]);
    assert_eq!(pixel(&c, 3, 0), [255, 255, 255, 255]);
    assert_eq!(pixel(&c, 3, 3), [7, 7, 7, 7]);
}

#[test]
fn encoded_placeholder_decodes_to_a_full_tile() {
    let png = encode_png(&origin_canvas());
    assert_eq!(&png[..8], &[137, 80, 78, 71, 13, 10, 26, 10]);
    assert_ne!(png.len(), CANVAS_BYTES);
    let decoded = image::load_from_memory(&png).expect("a decodable PNG").to_rgba8();
    assert_eq!(decoded.dimensions(), (256, 256));
    assert_eq!(decoded.get_pixel(0, 0).0, [255, 255, 255, 255]);
    assert_eq!(decoded.get_pixel(0, 200).0, [255, 255, 255, 255]);
    assert_eq!(decoded.get_pixel(200, 200).0, [255, 255, 255, 0]);
    assert_eq!(decoded.into_raw(), origin_canvas());
}

#[test]
fn encoding_is_repeatable() {
    let a = encode_png(&origin_canvas());
    let b = encode_png(&origin_canvas());
    assert_eq!(a, b);
}
