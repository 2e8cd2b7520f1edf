//! Pixel grid behaviour: wraparound addressing and XOR sprite drawing.

use chip8::display::{Display, Pixel};

#[test]
fn pixels_wrap_around_both_axes() {
    let mut d = Display::new();
    d.set_pixel(3, 5, Pixel::On);
    assert_eq!(d.pixel(3, 5), Pixel::On);
    assert_eq!(d.pixel(3 + 64, 5), Pixel::On);
    assert_eq!(d.pixel(3, 5 + 32), Pixel::On);
    assert_eq!(d.pixel(3 + 128, 5 + 64), Pixel::On);
    assert_eq!(d.pixel(4, 5), Pixel::Off);
}

#[test]
fn cls_turns_everything_off() {
    let mut d = Display::new();
    d.set_pixel(0, 0, Pixel::On);
    d.set_pixel(63, 31, Pixel::On);
    d.cls();
    assert_eq!(d.pixel(0, 0), Pixel::Off);
    assert_eq!(d.pixel(63, 31), Pixel::Off);
}

#[test]
fn drw_paints_the_seven_leftmost_columns() {
    let mut d = Display::new();
    let rows: Vec<(usize, usize)> = vec![(0, 0xFF)];
    let collision = d.drw(0, 0, &rows);
    assert!(!collision);
    for x in 0..7 {
        assert_eq!(d.pixel(x, 0), Pixel::On);
    }
    // The lowest bit of a sprite row is never drawn.
    assert_eq!(d.pixel(7, 0), Pixel::Off);
}

#[test]
fn drw_lowest_bit_alone_paints_nothing() {
    let mut d = Display::new();
    let rows: Vec<(usize, usize)> = vec![(0, 0x01)];
    let collision = d.drw(10, 10, &rows);
    assert!(!collision);
    for x in 0..64 {
        for y in 0..32 {
            assert_eq!(d.pixel(x, y), Pixel::Off);
        }
    }
}

#[test]
fn drw_twice_restores_the_screen_and_reports_collision() {
    let mut d = Display::new();
    let rows: Vec<(usize, usize)> = vec![(0, 0xA5), (1, 0x3C)];
    let first = d.drw(5, 9, &rows);
    assert!(!first);
    let second = d.drw(5, 9, &rows);
    assert!(second);
    for x in 0..64 {
        for y in 0..32 {
            assert_eq!(d.pixel(x, y), Pixel::Off);
        }
    }
}

#[test]
fn drw_wraps_at_the_edges() {
    let mut d = Display::new();
    let rows: Vec<(usize, usize)> = vec![(0, 0x80)];
    d.drw(63, 31, &rows);
    assert_eq!(d.pixel(63, 31), Pixel::On);
    let rows2: Vec<(usize, usize)> = vec![(0, 0x40)];
    // Column 1 of the row lands on x = 64, which wraps to 0.
    d.drw(63, 31, &rows2);
    assert_eq!(d.pixel(0, 31), Pixel::On);
}

#[test]
fn drw_reports_collision_only_on_overlap() {
    let mut d = Display::new();
    let rows: Vec<(usize, usize)> = vec![(0, 0x80)];
    assert!(!d.drw(0, 0, &rows));
    // A sprite next to the lit pixel does not collide.
    assert!(!d.drw(1, 0, &rows));
    // One on top of it does, and XOR turns the pixel off.
    assert!(d.drw(0, 0, &rows));
    assert_eq!(d.pixel(0, 0), Pixel::Off);
}

#[test]
fn invert_flips_pixels() {
    assert_eq!(Pixel::Off.invert(), Pixel::On);
    assert_eq!(Pixel::On.invert(), Pixel::Off);
}
