use region_select::geometry::{Pos, Region};
use region_select::render::{bgra_to_rgba, compose_overlay, OVERLAY_ALPHA, OVERLAY_GRAY};
use region_select::selection::Selection;

const GRAY: [u8; 4] = [OVERLAY_GRAY, OVERLAY_GRAY, OVERLAY_GRAY, OVERLAY_ALPHA];
const CLEAR: [u8; 4] = [0, 0, 0, 0];

fn pixel(buf: &[u8], width: u32, row: u32, col: u32) -> [u8; 4] {
    let i = ((row * width + col) * 4) as usize;
    [buf[i], buf[i + 1], buf[i + 2], buf[i + 3]]
}

#[test]
fn empty_selection_fills_everything_with_gray() {
    let surface = Region { x: 0, y: 0, width: 3, height: 2 };
    let sel = Selection::new();
    let buf = compose_overlay(surface, &sel);
    assert_eq!(buf.len(), 3 * 2 * 4);
    for row in 0..2 {
        for col in 0..3 {
            assert_eq!(pixel(&buf, 3, row, col), GRAY);
        }
    }
}

#[test]
fn selection_rectangle_is_cut_out() {
    let surface = Region { x: 0, y: 0, width: 4, height: 2 };
    let mut sel = Selection::new();
    sel.begin(Pos::new(1, 0));
    sel.update(Pos::new(3, 1));
    let buf = compose_overlay(surface, &sel);
    // Row 0: columns 1 and 2 lie inside the 2x1 rectangle.
    assert_eq!(pixel(&buf, 4, 0, 0), GRAY);
    assert_eq!(pixel(&buf, 4, 0, 1), CLEAR);
    assert_eq!(pixel(&buf, 4, 0, 2), CLEAR);
    assert_eq!(pixel(&buf, 4, 0, 3), GRAY);
    // Row 1 lies below it.
    for col in 0..4 {
        assert_eq!(pixel(&buf, 4, 1, col), GRAY);
    }
}

#[test]
fn zero_area_selection_paints_nothing() {
    let surface = Region { x: 0, y: 0, width: 2, height: 2 };
    let mut sel = Selection::new();
    sel.begin(Pos::new(0, 0));
    sel.update(Pos::new(2, 0));
    let buf = compose_overlay(surface, &sel);
    for row in 0..2 {
        for col in 0..2 {
            assert_eq!(pixel(&buf, 2, row, col), GRAY);
        }
    }
}

#[test]
fn cut_out_is_translated_into_surface_coordinates() {
    // A surface on a second output: its origin offsets the test.
    let surface = Region { x: 1920, y: 0, width: 3, height: 1 };
    let mut sel = Selection::new();
    sel.begin(Pos::new(1919, 0));
    sel.update(Pos::new(1922, 1));
    let buf = compose_overlay(surface, &sel);
    // Global columns 1920 and 1921 are inside, 1922 is not.
    assert_eq!(pixel(&buf, 3, 0, 0), CLEAR);
    assert_eq!(pixel(&buf, 3, 0, 1), CLEAR);
    assert_eq!(pixel(&buf, 3, 0, 2), GRAY);
}

#[test]
fn bgra_pixels_become_rgba() {
    let bgra = vec![1u8, 2, 3, 4, 5, 6, 7, 8];
    assert_eq!(bgra_to_rgba(&bgra), vec![3u8, 2, 1, 4, 7, 6, 5, 8]);
}

#[test]
fn trailing_fragment_is_dropped() {
    let bgra = vec![1u8, 2, 3, 4, 9];
    assert_eq!(bgra_to_rgba(&bgra), vec![3u8, 2, 1, 4]);
    assert_eq!(bgra_to_rgba(&Vec::new()), Vec::<u8>::new());
}
