use fishtank::render::raster::{braille_bit, dither_bytes, dither_hash, glyph, RasterBuffer};
use fishtank::render::{Panel, Renderer};

fn sub_pixel(x: f64, y: f64) -> (i64, i64) {
    ((2.0 * x).floor() as i64, (2.0 * y).floor() as i64)
}

#[test]
fn two_particles_without_dither() {
    let renderer = Renderer::new(2, 2);
    let points = vec![sub_pixel(0.1, 0.1), sub_pixel(1.7, 3.7)];
    let out: Vec<char> = renderer.render(&points, &Vec::new()).chars().collect();
    assert_eq!(out, vec!['\u{2801}', '\u{2800}', '\u{2800}', '\u{2880}']);
}

#[test]
fn each_sub_cell_sets_its_own_dot() {
    let expected = [[0u8, 1, 2, 6], [3, 4, 5, 7]];
    for x_half in 0..2i64 {
        for y_quarter in 0..4i64 {
            let renderer = Renderer::new(3, 3);
            let buf = renderer.rasterize(&vec![(2 + x_half, 4 + y_quarter)]);
            let bit = expected[x_half as usize][y_quarter as usize];
            assert_eq!(braille_bit(x_half as u8, y_quarter as u8), bit);
            for row in 0..3 {
                for col in 0..3 {
                    let v = buf.cell(row, col);
                    if row == 1 && col == 1 {
                        assert_eq!(v, 1u8 << bit);
                        assert_eq!(v.count_ones(), 1);
                    } else {
                        assert_eq!(v, 0);
                    }
                }
            }
        }
    }
}

#[test]
fn glyph_is_braille_offset() {
    for b in 0..=255u8 {
        assert_eq!(glyph(b) as u32, 0x2800 + b as u32);
    }
}

#[test]
fn dots_accumulate_and_out_of_range_points_drop() {
    let mut buf = RasterBuffer::new(2, 3);
    buf.plot((0, 0));
    buf.plot((1, 3));
    buf.plot((0, 0));
    buf.plot((-1, 0));
    buf.plot((0, -3));
    buf.plot((6, 0));
    buf.plot((0, 8));
    assert_eq!(buf.cell(0, 0), 0b1000_0001);
    for k in 1..6 {
        assert_eq!(buf.at(k), 0);
    }
    assert_eq!(buf.rows(), 2);
    assert_eq!(buf.cols(), 3);
}

#[test]
fn dither_hash_values() {
    assert_eq!(dither_hash(0), 0);
    assert_eq!(dither_hash(1), 2654435761);
    assert_eq!(dither_hash(65536), 65536u64.wrapping_mul(2654435761) ^ 1);
    assert_eq!(dither_hash(u64::MAX), u64::MAX.wrapping_mul(2654435761) ^ (u64::MAX >> 16));
    assert_eq!(dither_bytes(0), (0, 0));
    assert_eq!(dither_bytes(1), (0xB1, 0x79));
}

#[test]
fn panels_cover_glyphs() {
    let renderer = Renderer::new(2, 5);
    let left = Panel { text: vec!['a', 'b', 'c'], width: 2, height: 2, anchor_right: false };
    let right = Panel { text: vec!['1', '2', '3', '4'], width: 2, height: 1, anchor_right: true };
    let out: Vec<char> = renderer.render(&vec![(4, 0)], &vec![left, right]).chars().collect();
    let blank = '\u{2800}';
    assert_eq!(out, vec!['a', 'b', '\u{2801}', '1', '2', 'c', 'X', blank, blank, blank]);
}

#[test]
fn first_panel_wins_and_narrow_screen() {
    let renderer = Renderer::new(1, 2);
    let wide = Panel { text: vec!['p', 'q', 'r', 's'], width: 4, height: 1, anchor_right: true };
    let left = Panel { text: vec!['L'], width: 1, height: 1, anchor_right: false };
    let out: Vec<char> = renderer.render(&Vec::new(), &vec![left, wide]).chars().collect();
    assert_eq!(out, vec!['L', 's']);
}

#[test]
fn resize_changes_frame_size() {
    let mut renderer = Renderer::new(1, 1);
    renderer.resize(3, 4);
    assert_eq!(renderer.rows(), 3);
    assert_eq!(renderer.cols(), 4);
    assert_eq!(renderer.render(&Vec::new(), &Vec::new()).chars().count(), 12);
    renderer.resize(0, 4);
    assert_eq!(renderer.render(&vec![(0, 0)], &Vec::new()), "");
}
