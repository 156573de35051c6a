use lua_effects::color::Rgb;
use lua_effects::error::{OutOfBounds, SizeMismatch};
use lua_effects::screen::{Screen, PALETTE_SIZE};

#[test]
fn new_screen_is_zeroed() {
    let s = Screen::new(5, 3);
    assert_eq!(s.width(), 5);
    assert_eq!(s.height(), 3);
    for y in 0..3 {
        for x in 0..5 {
            assert_eq!(s.pget(x, y), 0);
        }
    }
    for i in 0..PALETTE_SIZE {
        assert_eq!(s.palette_entry(i as u8), Rgb(0, 0, 0));
    }
}

#[test]
fn default_colour_is_black() {
    assert_eq!(Rgb::default(), Rgb(0, 0, 0));
    let c = Rgb::new(1, 2, 3);
    assert_eq!((c.red(), c.green(), c.blue()), (1, 2, 3));
}

#[test]
fn pset_then_pget_returns_the_value() {
    let mut s = Screen::new(4, 3);
    for y in 0..3 {
        for x in 0..4 {
            let v = (x + 4 * y + 1) as u8;
            s.pset(x, y, v);
            assert_eq!(s.pget(x, y), v);
        }
    }
}

#[test]
fn pset_touches_one_cell_only() {
    let mut s = Screen::new(4, 3);
    s.cls(9);
    s.pset(3, 1, 200);
    for y in 0..3 {
        for x in 0..4 {
            let expected = if (x, y) == (3, 1) { 200 } else { 9 };
            assert_eq!(s.pget(x, y), expected);
        }
    }
    assert_eq!(s.palette_entry(200), Rgb(0, 0, 0));
}

#[test]
fn cells_are_stored_row_major() {
    let mut s = Screen::new(3, 2);
    s.pset(1, 0, 11);
    s.pset(0, 1, 22);
    let mut out = vec![0u8; 4 * 3 * 2];
    s.pal(11, Rgb(1, 1, 1));
    s.pal(22, Rgb(2, 2, 2));
    s.draw(&mut out).unwrap();
    assert_eq!(out[4 * 1], 1);
    assert_eq!(out[4 * 3], 2);
}

#[test]
fn cls_sets_every_cell() {
    let mut s = Screen::new(7, 5);
    s.pset(2, 2, 1);
    s.pal(3, Rgb(9, 8, 7));
    s.cls(42);
    for y in 0..5 {
        for x in 0..7 {
            assert_eq!(s.pget(x, y), 42);
        }
    }
    assert_eq!(s.palette_entry(3), Rgb(9, 8, 7));
}

#[test]
fn pal_then_read_returns_the_colour() {
    let mut s = Screen::new(2, 2);
    for i in 0..=255u8 {
        let c = Rgb(i, 255 - i, i ^ 0x55);
        s.pal(i, c);
        assert_eq!(s.palette_entry(i), c);
    }
    for i in 0..=255u8 {
        assert_eq!(s.palette_entry(i), Rgb(i, 255 - i, i ^ 0x55));
    }
}

#[test]
fn pal_leaves_cells_and_other_entries() {
    let mut s = Screen::new(2, 2);
    s.pset(1, 1, 7);
    s.pal(7, Rgb(1, 2, 3));
    s.pal(8, Rgb(4, 5, 6));
    assert_eq!(s.palette_entry(7), Rgb(1, 2, 3));
    assert_eq!(s.palette_entry(6), Rgb(0, 0, 0));
    assert_eq!(s.pget(1, 1), 7);
    assert_eq!(s.pget(0, 0), 0);
}

#[test]
fn contains_tells_the_edges() {
    let s = Screen::new(4, 3);
    assert!(s.contains(0, 0));
    assert!(s.contains(3, 2));
    assert!(!s.contains(4, 0));
    assert!(!s.contains(0, 3));
    assert!(!s.contains(usize::MAX, usize::MAX));
}

#[test]
fn get_pixel_rejects_coordinates_off_the_screen() {
    let mut s = Screen::new(4, 3);
    s.pset(3, 2, 5);
    assert_eq!(s.get_pixel(3, 2), Ok(5));
    assert_eq!(s.get_pixel(4, 2), Err(OutOfBounds { x: 4, y: 2, width: 4, height: 3 }));
    assert_eq!(s.get_pixel(0, 3), Err(OutOfBounds { x: 0, y: 3, width: 4, height: 3 }));
    assert_eq!(
        s.get_pixel(usize::MAX, usize::MAX),
        Err(OutOfBounds { x: usize::MAX, y: usize::MAX, width: 4, height: 3 })
    );
}

#[test]
fn a_column_past_the_edge_is_not_the_next_row() {
    // (4, 0) would share its offset with (0, 1) on a screen four cells wide.
    let mut s = Screen::new(4, 3);
    s.pset(0, 1, 9);
    assert!(s.get_pixel(4, 0).is_err());
    assert!(s.set_pixel(4, 0, 1).is_err());
    assert_eq!(s.pget(0, 1), 9);
}

#[test]
fn set_pixel_rejects_without_writing() {
    let mut s = Screen::new(4, 3);
    s.cls(1);
    assert_eq!(s.set_pixel(2, 1, 8), Ok(()));
    assert_eq!(s.set_pixel(4, 1, 8), Err(OutOfBounds { x: 4, y: 1, width: 4, height: 3 }));
    assert_eq!(s.set_pixel(1, 3, 8), Err(OutOfBounds { x: 1, y: 3, width: 4, height: 3 }));
    for y in 0..3 {
        for x in 0..4 {
            let expected = if (x, y) == (2, 1) { 8 } else { 1 };
            assert_eq!(s.pget(x, y), expected);
        }
    }
}

#[test]
fn draw_writes_palette_colours_in_cell_order() {
    let mut s = Screen::new(2, 2);
    s.pal(1, Rgb(10, 11, 12));
    s.pal(2, Rgb(20, 21, 22));
    s.pal(3, Rgb(30, 31, 32));
    s.pset(1, 0, 1);
    s.pset(0, 1, 2);
    s.pset(1, 1, 3);
    let mut out = vec![7u8; 16];
    assert_eq!(s.draw(&mut out), Ok(()));
    assert_eq!(
        out,
        vec![0, 0, 0, 255, 10, 11, 12, 255, 20, 21, 22, 255, 30, 31, 32, 255]
    );
}

#[test]
fn draw_byte_positions_follow_the_coordinates() {
    let (w, h) = (5usize, 4usize);
    let mut s = Screen::new(w, h);
    for i in 0..=255u8 {
        s.pal(i, Rgb(i, i.wrapping_mul(3), i.wrapping_add(100)));
    }
    for y in 0..h {
        for x in 0..w {
            s.pset(x, y, (17 * x + 29 * y) as u8);
        }
    }
    let mut out = vec![0u8; 4 * w * h];
    s.draw(&mut out).unwrap();
    for y in 0..h {
        for x in 0..w {
            let c = s.palette_entry(s.pget(x, y));
            let at = 4 * (x + w * y);
            assert_eq!(out[at], c.red());
            assert_eq!(out[at + 1], c.green());
            assert_eq!(out[at + 2], c.blue());
            assert_eq!(out[at + 3], 255);
        }
    }
}

#[test]
fn draw_rejects_a_buffer_of_the_wrong_length() {
    let mut s = Screen::new(3, 2);
    s.pal(0, Rgb(1, 2, 3));
    for len in [0usize, 1, 23, 25, 6, 48] {
        let mut out = vec![0xABu8; len];
        assert_eq!(
            s.draw(&mut out),
            Err(SizeMismatch { width: 3, height: 2, actual: len })
        );
        assert_eq!(out, vec![0xABu8; len]);
    }
    assert!(s.fits(24));
    assert!(!s.fits(25));
    assert!(!s.fits(6));
}

#[test]
fn draw_does_not_change_the_screen() {
    let mut s = Screen::new(3, 2);
    s.pset(2, 1, 4);
    s.pal(4, Rgb(4, 4, 4));
    let before = s.clone();
    let mut out = vec![0u8; 24];
    s.draw(&mut out).unwrap();
    for y in 0..2 {
        for x in 0..3 {
            assert_eq!(s.pget(x, y), before.pget(x, y));
        }
    }
    assert_eq!(s.palette_entry(4), before.palette_entry(4));
}

#[test]
fn clear_then_draw_repeats_one_colour() {
    let mut s = Screen::new(320, 240);
    s.pal(5, Rgb(12, 34, 56));
    s.cls(5);
    let mut out = vec![0u8; 4 * 320 * 240];
    assert_eq!(s.draw(&mut out), Ok(()));
    assert_eq!(out.len(), 307200);
    for group in out.chunks(4) {
        assert_eq!(group, [12, 34, 56, 255]);
    }
}

#[test]
fn clone_is_independent() {
    let mut s = Screen::new(2, 2);
    s.pset(0, 0, 1);
    let copy = s.clone();
    s.pset(0, 0, 2);
    assert_eq!(copy.pget(0, 0), 1);
    assert_eq!(s.pget(0, 0), 2);
    assert_eq!(copy.width(), 2);
    assert_eq!(copy.height(), 2);
}
