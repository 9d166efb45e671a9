use chip8::{Graphic, HEIGHT, WIDTH};

fn row(byte: u8) -> [u8; 8] {
    let mut bits = [0u8; 8];
    for c in 0..8 {
        bits[c] = (byte >> (7 - c)) & 1;
    }
    bits
}

fn lit(graphic: &Graphic) -> Vec<(usize, usize)> {
    let mut points = Vec::new();
    for y in 0..HEIGHT {
        for x in 0..WIDTH {
            if graphic.pixel(x, y) {
                points.push((x, y));
            }
        }
    }
    points
}

#[test]
fn new_screen_is_blank_and_not_rendered() {
    let mut graphic = Graphic::default();
    assert_eq!(lit(&graphic), vec![]);
    assert_eq!(graphic.render(), None);
}

#[test]
fn clear_then_render_sees_a_blank_screen() {
    let mut graphic = Graphic::default();
    graphic.draw(10, 10, &[row(0xFF), row(0x81)]);
    graphic.clear();
    assert_eq!(graphic.render(), Some(vec![]));
    assert_eq!(lit(&graphic), vec![]);
}

#[test]
fn drawing_twice_cancels_and_collides() {
    let mut graphic = Graphic::default();
    assert!(!graphic.draw(0, 0, &[row(0xFF)]));
    assert_eq!(lit(&graphic), (0..8).map(|x| (x, 0)).collect::<Vec<_>>());
    assert!(graphic.draw(0, 0, &[row(0xFF)]));
    assert_eq!(lit(&graphic), vec![]);
}

#[test]
fn render_lists_lit_pixels_row_by_row_once() {
    let mut graphic = Graphic::default();
    graphic.draw(2, 1, &[row(0b1010_0000), row(0b0100_0000)]);
    assert_eq!(graphic.render(), Some(vec![(2, 1), (4, 1), (3, 2)]));
    assert_eq!(graphic.render(), None);
}

#[test]
fn position_is_taken_modulo_the_screen() {
    let mut graphic = Graphic::default();
    graphic.draw(64 + 5, 32 + 7, &[row(0x80)]);
    assert_eq!(lit(&graphic), vec![(5, 7)]);
    graphic.draw(255, 255, &[row(0x80)]);
    assert_eq!(lit(&graphic), vec![(5, 7), (63, 31)]);
}

#[test]
fn sprite_is_clipped_at_the_right_edge() {
    let mut graphic = Graphic::default();
    graphic.draw(60, 0, &[row(0xFF)]);
    assert_eq!(lit(&graphic), vec![(60, 0), (61, 0), (62, 0), (63, 0)]);
}

#[test]
fn sprite_is_clipped_at_the_bottom_edge() {
    let mut graphic = Graphic::default();
    graphic.draw(0, 30, &[row(0x80), row(0x80), row(0x80), row(0x80)]);
    assert_eq!(lit(&graphic), vec![(0, 30), (0, 31)]);
}

#[test]
fn collision_needs_a_lit_pixel_under_a_set_bit() {
    let mut graphic = Graphic::default();
    graphic.draw(0, 0, &[row(0xF0)]);
    assert!(!graphic.draw(0, 0, &[row(0x0F)]));
    assert_eq!(lit(&graphic), (0..8).map(|x| (x, 0)).collect::<Vec<_>>());
    assert!(graphic.draw(0, 0, &[row(0x01)]));
    assert_eq!(lit(&graphic), (0..7).map(|x| (x, 0)).collect::<Vec<_>>());
}

#[test]
fn clipped_bits_do_not_collide() {
    let mut graphic = Graphic::default();
    graphic.draw(0, 0, &[row(0x80)]);
    assert!(!graphic.draw(60, 0, &[row(0x08)]));
    assert_eq!(lit(&graphic), vec![(0, 0)]);
}

#[test]
fn empty_bitmap_changes_nothing_but_marks_the_screen() {
    let mut graphic = Graphic::default();
    assert!(!graphic.draw(3, 3, &[]));
    assert_eq!(graphic.render(), Some(vec![]));
}

#[test]
fn only_ones_are_set_bits() {
    let mut graphic = Graphic::default();
    assert!(!graphic.draw(0, 0, &[[1, 0, 2, 0, 255, 0, 0, 1]]));
    assert_eq!(lit(&graphic), vec![(0, 0), (7, 0)]);
}
